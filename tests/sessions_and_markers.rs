use std::time::Duration;

use session_manager::mount_table::{parse_mount_points, split_pieces};
use session_manager::integrity::{content_digest, to_hex, verify_file_integrity};
use session_manager::lockless::{
    hostname_from_env, metadata_file_for, BackupMetadata, BackupStatus, LocklessBackupManager,
};
use session_manager::resources::{pool_sizes, AsyncBatchOperations, ResourceMonitor, StreamingJsonProcessor};
use session_manager::session::{
    default_namespace, find_current_session, parse_timestamp, PathMapping, PathMappings, PodInfo,
    PodInfoError, SessionError, Timestamp,
};
use session_manager::transfer::{
    deadline_passed, mount_walk_action, rsync_exclude_patterns, rsync_outcome, tar_outcome,
    EntryAction, EntryKind, TransferResult,
};

fn in_progress(started_at: u64) -> BackupMetadata {
    BackupMetadata {
        started_at,
        process_id: 42,
        hostname: "host".to_string(),
        operation: "test".to_string(),
        status: BackupStatus::InProgress,
    }
}

#[test]
fn test_concurrent_detection() {
    let manager = LocklessBackupManager::new("test".to_string());
    let now = 1_700_000_000;
    let written = manager.metadata_record(BackupStatus::InProgress, now, 42, "host".to_string());
    let concurrent = manager.check_concurrent_backup(Some(written), now);
    assert!(concurrent.is_some());
    assert_eq!(concurrent.unwrap().status, BackupStatus::InProgress);
}

#[test]
fn stale_or_finished_markers_do_not_signal() {
    let manager = LocklessBackupManager::new("test".to_string());
    assert!(manager.check_concurrent_backup(Some(in_progress(1000)), 2800).is_some());
    assert!(manager.check_concurrent_backup(Some(in_progress(1000)), 2801).is_none());
    assert!(manager.check_concurrent_backup(Some(in_progress(5000)), 1000).is_some());
    let mut done = in_progress(1000);
    done.status = BackupStatus::Completed;
    assert!(manager.check_concurrent_backup(Some(done.clone()), 1000).is_none());
    assert!(manager.check_concurrent_backup(None, 1000).is_none());
    let quiet = LocklessBackupManager::new("test".to_string()).disable_metadata();
    assert!(!quiet.enable_metadata);
    assert!(quiet.check_concurrent_backup(Some(in_progress(1000)), 1000).is_none());
    assert!(manager.is_sweepable(&done, 1000 + 3601, 1));
    assert!(!manager.is_sweepable(&done, 1000 + 3600, 1));
    assert!(!manager.is_sweepable(&in_progress(0), 100_000, 1));
}

#[test]
fn markers_sit_beside_the_path() {
    assert_eq!(metadata_file_for("/tmp/x/test_backup"), "/tmp/x/test_backup.backup_meta");
    assert_eq!(metadata_file_for("/tmp/x/data.tar"), "/tmp/x/data.backup_meta");
    assert_eq!(LocklessBackupManager::status_after(true), BackupStatus::Completed);
    assert_eq!(LocklessBackupManager::status_after(false), BackupStatus::Failed);
    assert_eq!(hostname_from_env(None, Some("pod".to_string())), "pod");
    assert_eq!(hostname_from_env(None, None), "unknown");
}

fn mapping(ns: &str, pod: &str, created_at: &str, hash: &str) -> PathMapping {
    PathMapping {
        namespace: ns.to_string(),
        pod_name: pod.to_string(),
        container_name: "app".to_string(),
        created_at: created_at.to_string(),
        pod_hash: hash.to_string(),
        snapshot_hash: format!("snap-{}", hash),
        snapshot_id: None,
        last_accessed: None,
    }
}

fn pod() -> PodInfo {
    PodInfo::from_args_and_env(Some("ns".to_string()), Some("web".to_string()), Some("app".to_string()), None, None, None)
        .unwrap()
}

#[test]
fn latest_matching_session_wins() {
    let mappings = PathMappings {
        mappings: vec![
            ("k1".to_string(), mapping("ns", "web", "2024-01-01T00:00:00Z", "old")),
            ("k2".to_string(), mapping("ns", "web", "2024-03-01T00:00:00+02:00", "new")),
            ("k3".to_string(), mapping("other", "web", "2025-01-01T00:00:00Z", "foreign")),
            ("k4".to_string(), mapping("ns", "web", "2024-03-01T00:00:00+02:00", "tie")),
        ],
    };
    let s = find_current_session(&mappings, &pod()).unwrap().unwrap();
    assert_eq!(s.pod_hash, "new");
    assert_eq!(s.snapshot_hash, "snap-new");
    assert_eq!(s.created_at, Timestamp { seconds: 1709244000, nanos: 0 });
}

#[test]
fn no_match_and_bad_timestamps() {
    let mappings = PathMappings { mappings: vec![("k".to_string(), mapping("x", "y", "garbage", "h"))] };
    assert_eq!(find_current_session(&mappings, &pod()), Ok(None));
    let bad = PathMappings { mappings: vec![("k".to_string(), mapping("ns", "web", "garbage", "h"))] };
    assert_eq!(
        find_current_session(&bad, &pod()),
        Err(SessionError::InvalidTimestamp { key: "k".to_string(), created_at: "garbage".to_string() })
    );
    assert_eq!(parse_timestamp("1970-01-01T00:01:00.5Z"), Some(Timestamp { seconds: 60, nanos: 500_000_000 }));
    assert_eq!(default_namespace(), "default");
}

#[test]
fn pod_identity_falls_back_to_environment() {
    let p = PodInfo::from_args_and_env(None, None, Some("c".to_string()), Some("envns".to_string()), Some("host".to_string()), None)
        .unwrap();
    assert_eq!(p.namespace, "envns");
    assert_eq!(p.pod_name, "host");
    assert_eq!(p.container_name, "c");
    assert_eq!(PodInfo::from_args_and_env(None, None, None, None, None, None), Err(PodInfoError::MissingNamespace));
    assert_eq!(
        PodInfo::from_args_and_env(Some("n".to_string()), None, None, None, None, None),
        Err(PodInfoError::MissingPodName)
    );
    assert_eq!(
        PodInfo::from_args_and_env(Some("n".to_string()), Some("p".to_string()), None, None, None, None),
        Err(PodInfoError::MissingContainerName)
    );
}

#[test]
fn digests_are_blake3_in_hex() {
    assert_eq!(
        content_digest(b""),
        "af1349b9f5f9a1a6a0404dea36dcc9499bcb25c9adc112b7cc9a93cae41f3262"
    );
    assert_eq!(to_hex(&[0x00, 0xab, 0x7f]), "00ab7f");
    assert!(verify_file_integrity(b"same", b"same"));
    assert!(!verify_file_integrity(b"same", b"other"));
    let big = vec![7u8; 10 * 1024 * 1024 + 1];
    let mut other = big.clone();
    other[5 * 1024 * 1024] = 8;
    assert!(verify_file_integrity(&big, &big.clone()));
    assert!(!verify_file_integrity(&big, &other));
    assert_eq!(content_digest(&big).len(), 64);
}

#[test]
fn rsync_and_tar_statuses() {
    let ok = rsync_outcome(Some(0), "");
    assert_eq!((ok.success_count, ok.error_count), (1, 0));
    let timeout = rsync_outcome(Some(124), "");
    assert_eq!(timeout.errors, vec!["Operation timed out".to_string()]);
    let partial = rsync_outcome(Some(23), "vanished");
    assert_eq!((partial.success_count, partial.error_count), (0, 1));
    assert_eq!(partial.errors, vec!["Rsync exit code 23: vanished".to_string()]);
    let warn = rsync_outcome(Some(11), "w");
    assert_eq!((warn.success_count, warn.error_count), (1, 0));
    let killed = rsync_outcome(None, "");
    assert_eq!(killed.errors, vec!["Rsync was terminated by signal".to_string()]);

    let t = tar_outcome(true, Some(0), false, "tar: Exiting with failure status due to previous errors");
    assert_eq!((t.success_count, t.skipped_count, t.error_count), (1, 1, 0));
    let t = tar_outcome(false, Some(2), false, "boom");
    assert_eq!(t.error_count, 2);
    assert_eq!(t.errors[0], "Tar source failed with exit code: Some(2)");
    assert_eq!(t.errors[1], "Tar target error: boom");
    let t = tar_outcome(true, Some(0), true, "");
    assert!(t.is_acceptable());
    assert_eq!(t.success_count, 1);
}

#[test]
fn mount_aware_walk_skips_mounted_destinations() {
    let mounts = vec!["/data".to_string()];
    assert_eq!(mount_walk_action("/src/data", "/src", &mounts, EntryKind::Directory), EntryAction::SkipMounted);
    assert_eq!(mount_walk_action("/src/data/subpath", "/src", &mounts, EntryKind::File), EntryAction::SkipMounted);
    assert_eq!(mount_walk_action("/src/home", "/src", &mounts, EntryKind::Directory), EntryAction::Descend);
    assert_eq!(mount_walk_action("/src/home/f", "/src", &mounts, EntryKind::File), EntryAction::CopyFile);
    assert_eq!(mount_walk_action("/src/l", "/src", &mounts, EntryKind::Symlink), EntryAction::CopySymlink);
    assert_eq!(mount_walk_action("/src/p", "/src", &mounts, EntryKind::Other), EntryAction::SkipSpecial);
    assert_eq!(mount_walk_action("/src/u", "/src", &mounts, EntryKind::Unreadable), EntryAction::ReportError);
    assert_eq!(
        rsync_exclude_patterns("/src", &vec!["/src/data".to_string(), "/proc".to_string(), "/src/a/b".to_string()]),
        vec!["/data".to_string(), "/a/b".to_string()]
    );
    assert!(deadline_passed(2001, 2));
    assert!(!deadline_passed(2000, 2));
}

#[test]
fn transfer_tallies_and_verdict() {
    let mut t = TransferResult::new();
    assert!(t.is_acceptable());
    t.record_error("x".to_string());
    assert!(!t.is_acceptable());
    t.record_copied();
    t.record_skipped();
    assert!(t.is_acceptable());
    assert_eq!((t.success_count, t.error_count, t.skipped_count), (1, 1, 1));
}

#[test]
fn pools_monitor_and_settings() {
    let p = pool_sizes(Some(8));
    assert_eq!((p.io_threads, p.compute_threads), (16, 8));
    let p = pool_sizes(None);
    assert_eq!((p.io_threads, p.compute_threads), (8, 4));
    let mut m = ResourceMonitor::new();
    m.max_open_files = 1;
    assert!(m.track_file_open().is_ok());
    assert_eq!(m.track_file_open(), Err(1));
    m.track_file_close();
    m.track_file_close();
    assert_eq!(m.get_stats(Duration::from_secs(1)).current_open_files, 0);
    let defaults = AsyncBatchOperations::new();
    assert_eq!((defaults.max_retries(), defaults.base_delay_ms(), defaults.max_concurrent()), (3, 100, 10));
    let ops = AsyncBatchOperations::new().with_retry_config(2, 50).with_concurrency(4);
    assert_eq!(ops.max_retries(), 2);
    assert_eq!(ops.base_delay_ms(), 50);
    assert_eq!(ops.max_concurrent(), 4);
    assert_eq!(ops.backoff_after(0), Some(50));
    assert_eq!(ops.backoff_after(1), Some(100));
    assert_eq!(ops.backoff_after(2), None);
    let huge = AsyncBatchOperations::new().with_retry_config(40, u64::MAX);
    assert_eq!(huge.backoff_after(35), Some(u64::MAX));
    assert_eq!(StreamingJsonProcessor::new().chunk_size, 65536);
    assert_eq!(StreamingJsonProcessor::new().with_chunk_size(10).chunk_size, 10);
}

#[test]
fn mount_table_lists_second_fields_once() {
    let table = "rootfs / rootfs rw 0 0\nproc /proc proc rw 0 0\n/dev/sda1 /data ext4 rw 0 0\n\noverlay  /data\text4 ro 0 0\nshort\n";
    assert_eq!(parse_mount_points(table), vec!["/proc".to_string(), "/data".to_string()]);
    assert_eq!(parse_mount_points(""), Vec::<String>::new());
    assert_eq!(split_pieces(" a \t b\r\n", false), vec!["a".to_string(), "b".to_string()]);
    assert_eq!(split_pieces("x\n\ny\n", true), vec!["x".to_string(), "y".to_string()]);
}
