use session_manager::batch::{BatchCleanup, CleanupAction};
use session_manager::cleanup::FileFacts;
use session_manager::classify::{
    classify_failure, copy_failure_outcome, is_file_busy, is_file_readonly, is_permission_denied,
    is_transient_error, move_failure_outcome, CopyResult, FailureClass, IoErrorKind,
};
use session_manager::path_map::{
    is_path_excluded, is_path_mounted, map_backup_path, path_components, validate_container_path,
    validate_path_security, PathError,
};
use session_manager::restore::{
    validate_cleanup_operations, DirectRestoreEngine, DirectRestoreResult, FileProcessOutcome, FileStep,
};
use session_manager::retry::{backoff_multiplier, retry_decision, RetryDecision};

#[test]
fn test_map_backup_to_container_path() {
    let engine = DirectRestoreEngine::new(true, 300);
    let backup_root = "/tmp/backup";

    let result = engine.map_backup_to_container_path("/tmp/backup/root/.bashrc", backup_root).unwrap();
    assert_eq!(result, "/root/.bashrc");

    let result = engine.map_backup_to_container_path("/tmp/backup/abc.txt", backup_root).unwrap();
    assert_eq!(result, "/abc.txt");

    let result = engine
        .map_backup_to_container_path("/tmp/backup/home/user/document.txt", backup_root)
        .unwrap();
    assert_eq!(result, "/home/user/document.txt");
}

#[test]
fn test_validate_container_path() {
    assert!(validate_container_path("/root/.bashrc").is_ok());
    assert!(validate_container_path("/home/user/file.txt").is_ok());

    assert!(validate_container_path("../etc/passwd").is_err());
    assert!(validate_container_path("/root/../etc/passwd").is_err());
    assert!(validate_container_path("relative/path").is_err());
}

#[test]
fn test_error_classification() {
    assert!(is_file_busy(IoErrorKind::ResourceBusy, "resource busy"));
    assert!(is_permission_denied(IoErrorKind::PermissionDenied));
    assert!(is_file_readonly(IoErrorKind::ReadOnlyFilesystem, "read-only filesystem"));
}

#[test]
fn test_transient_error_detection() {
    assert!(is_transient_error("File busy: Resource busy"));
    assert!(is_transient_error("Resource busy"));
    assert!(!is_transient_error("Permission denied"));
    assert!(!is_transient_error("Read-only filesystem"));
}

#[test]
fn test_retry_configuration() {
    let engine = DirectRestoreEngine::new(true, 300).with_retry_config(5, 100);

    assert_eq!(engine.max_retries, 5);
    assert_eq!(engine.retry_delay_ms, 100);
    assert_eq!(DirectRestoreEngine::new(true, 300).retry_delay_ms, 500);
}

#[test]
fn mapping_rejects_traversal_and_foreign_roots() {
    assert_eq!(map_backup_path("/tmp/backup/../etc/passwd", "/tmp/backup"), Err(PathError::ParentDirectory));
    assert_eq!(
        map_backup_path("/tmp/backup/a/..hidden/x", "/tmp/backup"),
        Err(PathError::SuspiciousComponent("..hidden".to_string()))
    );
    assert_eq!(map_backup_path("/other/file", "/tmp/backup"), Err(PathError::NotUnderRoot));
    assert_eq!(map_backup_path("tmp/backup/file", "/tmp/backup"), Err(PathError::NotUnderRoot));
}

#[test]
fn mapping_normalises_separators() {
    assert_eq!(map_backup_path("/tmp//backup/./etc//hosts", "/tmp/backup/").unwrap(), "/etc/hosts");
    assert_eq!(map_backup_path("/tmp/backup", "/tmp/backup").unwrap(), "/");
    assert_eq!(path_components("/a//b/./c/"), vec!["a", "b", "c"]);
}

#[test]
fn container_path_errors_name_the_first_traversal() {
    assert_eq!(validate_container_path("/a/...b/../c"), Err(PathError::SuspiciousComponent("...b".to_string())));
    assert_eq!(validate_container_path("relative/path"), Err(PathError::NotAbsolute));
    assert_eq!(validate_container_path(""), Err(PathError::NotAbsolute));
    assert_eq!(PathError::NotAbsolute.message(), "Container path must be absolute");
}

#[test]
fn path_security_checks_base_then_components() {
    assert_eq!(validate_path_security("/data/x", "/data/x", "/data"), Ok(()));
    assert_eq!(validate_path_security("/data/x", "/elsewhere/x", "/data"), Err(PathError::OutsideBase));
    assert_eq!(validate_path_security("/data/../data/x", "/data/x", "/data"), Err(PathError::ParentDirectory));
}

#[test]
fn mounted_paths_cover_their_descendants() {
    let mounts = vec!["/data".to_string(), "/proc".to_string()];
    assert!(is_path_mounted("/data", &mounts));
    assert!(is_path_mounted("/data/subpath/file", &mounts));
    assert!(!is_path_mounted("/database", &mounts));
    assert!(!is_path_mounted("/home/user", &mounts));
}

#[test]
fn mount_exclusion_uses_the_mapped_destination() {
    let mounts = vec!["/data".to_string()];
    assert!(is_path_excluded("/backup/data", "/backup", &mounts));
    assert!(is_path_excluded("/backup/data/subpath", "/backup", &mounts));
    assert!(!is_path_excluded("/backup/home/data", "/backup", &mounts));
    assert!(!is_path_excluded("/elsewhere/data", "/backup", &mounts));
}

#[test]
fn classification_reads_kind_then_lowered_message() {
    assert_eq!(classify_failure(IoErrorKind::Other, "Text File Busy (os error 26)"), FailureClass::Busy);
    assert_eq!(classify_failure(IoErrorKind::Other, "READ-ONLY FILE SYSTEM"), FailureClass::ReadOnly);
    assert_eq!(classify_failure(IoErrorKind::PermissionDenied, "denied"), FailureClass::PermissionDenied);
    assert_eq!(classify_failure(IoErrorKind::CrossesDevices, "xdev"), FailureClass::CrossDevice);
    assert_eq!(classify_failure(IoErrorKind::Other, "no such file"), FailureClass::Other);
}

#[test]
fn failure_outcomes_carry_their_reasons() {
    assert_eq!(copy_failure_outcome(FailureClass::Busy, "x"), CopyResult::Skipped("File busy: x".to_string()));
    assert_eq!(
        copy_failure_outcome(FailureClass::ReadOnly, "x"),
        CopyResult::Skipped("Read-only filesystem: x".to_string())
    );
    assert_eq!(
        copy_failure_outcome(FailureClass::PermissionDenied, "x"),
        CopyResult::Skipped("Permission denied: x".to_string())
    );
    assert_eq!(copy_failure_outcome(FailureClass::Other, "x"), CopyResult::Failed("Copy failed: x".to_string()));
    assert_eq!(
        move_failure_outcome(FailureClass::CrossDevice, "x"),
        CopyResult::Failed("Cross-device move (fallback needed): x".to_string())
    );
    assert_eq!(move_failure_outcome(FailureClass::Other, "x"), CopyResult::Failed("Move failed: x".to_string()));
}

#[test]
fn busy_skips_are_retried_until_the_limit() {
    let busy = CopyResult::Skipped("File busy: Resource busy".to_string());
    let max_retries = 3;
    let mut attempts = 0;
    for attempt in 0..=max_retries {
        attempts += 1;
        if retry_decision(attempt, max_retries, &busy) == RetryDecision::Finish {
            break;
        }
    }
    assert_eq!(attempts, 4);
}

#[test]
fn permission_denied_is_tried_once() {
    let denied = copy_failure_outcome(FailureClass::PermissionDenied, "Permission denied (os error 13)");
    assert_eq!(retry_decision(0, 3, &denied), RetryDecision::Finish);
    assert_eq!(retry_decision(0, 3, &CopyResult::Failed("Copy failed: x".to_string())), RetryDecision::Finish);
    assert_eq!(retry_decision(0, 3, &CopyResult::Success), RetryDecision::Finish);
}

#[test]
fn backoff_doubles_and_saturates() {
    assert_eq!(backoff_multiplier(0), 1);
    assert_eq!(backoff_multiplier(3), 8);
    assert_eq!(backoff_multiplier(31), 1 << 31);
    assert_eq!(backoff_multiplier(32), u32::MAX);
}

#[test]
fn result_tallies_stay_balanced() {
    let mut r = DirectRestoreResult::new();
    r.record_outcome("/a", FileProcessOutcome::Success);
    r.record_outcome("/b", FileProcessOutcome::Cleaned);
    r.record_outcome("/c", FileProcessOutcome::Skipped("File busy: x".to_string()));
    r.record_outcome("/d", FileProcessOutcome::Failed("Copy failed: x".to_string()));
    r.record_special_entry("/e");
    r.record_bulk_move(vec!["/usr/a".to_string(), "/usr/b".to_string(), "/usr/c".to_string()]);
    assert_eq!(r.total_files, 8);
    assert_eq!(r.successful_files, 5);
    assert_eq!(r.skipped_files, 2);
    assert_eq!(r.failed_files, 1);
    assert_eq!(r.cleaned_files, 4);
    assert_eq!(r.successful_files + r.skipped_files + r.failed_files, r.total_files);
    assert_eq!(r.cleaned_details, vec!["/b", "/usr/a", "/usr/b", "/usr/c"]);
    assert_eq!(r.cleaned_details.len(), r.cleaned_files);
    assert_eq!(r.skipped_details[1].reason, "Special file type (not regular file or symlink)");
    assert!(!r.is_total_failure());
}

#[test]
fn only_total_failure_fails_the_run() {
    let mut r = DirectRestoreResult::new();
    r.record_outcome("/d", FileProcessOutcome::Failed("Copy failed: x".to_string()));
    assert!(r.is_total_failure());
    r.record_outcome("/s", FileProcessOutcome::Skipped("Permission denied: x".to_string()));
    assert!(r.is_total_failure());
    r.record_outcome("/a", FileProcessOutcome::Success);
    assert!(!r.is_total_failure());
}

#[test]
fn restore_of_one_file_moves_and_cleans() {
    let engine = DirectRestoreEngine::new_move_first(false, 300);
    let mut result = DirectRestoreResult::new();
    let backup_file = "/tmp/backup/home/user/file.txt";
    let step = engine.first_step(backup_file, "/tmp/backup");
    assert_eq!(step, FileStep::Move("/home/user/file.txt".to_string()));
    let step = engine.after_move("/home/user/file.txt".to_string(), CopyResult::Success);
    match step {
        FileStep::Done(outcome) => result.record_outcome(backup_file, outcome),
        other => panic!("unexpected step {:?}", other),
    }
    assert_eq!(result.successful_files, 1);
    assert_eq!(result.cleaned_files, 1);
    assert_eq!(result.total_files, 1);
}

#[test]
fn copy_path_goes_through_cleanup() {
    let engine = DirectRestoreEngine::new(false, 300);
    let step = engine.first_step("/b/etc/hosts", "/b");
    assert_eq!(step, FileStep::Copy("/etc/hosts".to_string()));
    assert_eq!(
        engine.after_copy("/etc/hosts".to_string(), CopyResult::Success),
        FileStep::Clean("/etc/hosts".to_string())
    );
    assert_eq!(engine.after_clean(&batch_of_one(regular(5), regular(5), Ok(()))), FileProcessOutcome::Cleaned);
    assert_eq!(engine.after_clean(&batch_of_one(regular(5), regular(4), Ok(()))), FileProcessOutcome::Success);
    assert_eq!(
        engine.after_clean(&batch_of_one(regular(5), regular(5), Err("busy".to_string()))),
        FileProcessOutcome::Success
    );
    assert_eq!(
        engine.after_copy("/etc/hosts".to_string(), CopyResult::Failed("Copy failed: x".to_string())),
        FileStep::Done(FileProcessOutcome::Failed("Copy failed: x".to_string()))
    );
}

#[test]
fn failed_move_falls_back_to_copy_and_dry_run_never_cleans() {
    let engine = DirectRestoreEngine::new_move_first(false, 300);
    assert_eq!(
        engine.after_move("/x".to_string(), CopyResult::Failed("Move failed: y".to_string())),
        FileStep::Copy("/x".to_string())
    );
    let dry = DirectRestoreEngine::new_move_first(true, 300);
    assert_eq!(
        dry.after_move("/x".to_string(), CopyResult::Success),
        FileStep::Done(FileProcessOutcome::Success)
    );
    assert_eq!(
        dry.after_copy("/x".to_string(), CopyResult::Success),
        FileStep::Done(FileProcessOutcome::Success)
    );
}

#[test]
fn bad_mapping_fails_the_file() {
    let engine = DirectRestoreEngine::new(false, 300);
    assert_eq!(
        engine.first_step("/b/../etc/passwd", "/b"),
        FileStep::Done(FileProcessOutcome::Failed(
            "Path mapping failed: Path contains parent directory (..) component".to_string()
        ))
    );
}

#[test]
fn bulk_move_only_for_top_level_allow_list() {
    let engine = DirectRestoreEngine::new_move_first(false, 300);
    assert!(engine.should_use_bulk_move("/backup/usr", "/backup"));
    assert!(engine.should_use_bulk_move("/backup/home/", "/backup"));
    assert!(!engine.should_use_bulk_move("/backup/srv", "/backup"));
    assert!(!engine.should_use_bulk_move("/backup/home/usr", "/backup"));
    let dry = DirectRestoreEngine::new_move_first(true, 300);
    assert!(!dry.should_use_bulk_move("/backup/usr", "/backup"));
    let plain = DirectRestoreEngine::new(false, 300);
    assert!(!plain.should_use_bulk_move("/backup/usr", "/backup"));
}

#[test]
fn post_pass_reports_survivors() {
    let cleaned = vec!["/a".to_string(), "/b".to_string(), "/c".to_string()];
    assert_eq!(validate_cleanup_operations(&cleaned, &vec![false, false, false]), Ok(()));
    assert_eq!(
        validate_cleanup_operations(&cleaned, &vec![false, true, true]),
        Err(vec!["/b".to_string(), "/c".to_string()])
    );
}

#[test]
fn a_directory_of_outcomes_is_recorded_in_order() {
    let mut r = DirectRestoreResult::new();
    let paths = vec!["/b/x".to_string(), "/b/y".to_string(), "/b/z".to_string()];
    r.record_all(
        &paths,
        vec![
            FileProcessOutcome::Cleaned,
            FileProcessOutcome::Skipped("File busy: x".to_string()),
            FileProcessOutcome::Failed("Copy failed: y".to_string()),
        ],
    );
    assert_eq!((r.total_files, r.successful_files, r.skipped_files, r.failed_files, r.cleaned_files), (3, 1, 1, 1, 1));
    assert_eq!(r.cleaned_details, vec!["/b/x"]);
    assert_eq!(r.skipped_details[0].path, "/b/y");
    assert_eq!(r.failed_details[0].path, "/b/z");
}

fn regular(size: u64) -> FileFacts {
    FileFacts { exists: true, metadata_readable: true, is_file: true, size, openable: true }
}

/// Runs a batch of one pair with the given facts and deletion result.
fn batch_of_one(backup: FileFacts, target: FileFacts, removal: Result<(), String>) -> BatchCleanup {
    let mut batch = BatchCleanup::new(vec!["/b/f".to_string()], vec!["/f".to_string()], 0).ok().unwrap();
    let mut removal = Some(removal);
    loop {
        match batch.next_action() {
            CleanupAction::CopyAside(_) => batch.record_copy(Ok("/b/f.cleanup_backup_1".to_string())),
            CleanupAction::Recheck(_) => batch.record_recheck(&backup, &target),
            CleanupAction::Remove(_) => batch.record_removal(removal.take().unwrap()),
            CleanupAction::RestoreFromCopy(_) => batch.record_restore(true),
            CleanupAction::DiscardCopies { .. } => batch.record_discarded(),
            CleanupAction::Finish => return batch,
        }
    }
}

#[test]
fn permission_denied_kind_wins_over_its_message() {
    assert_eq!(classify_failure(IoErrorKind::PermissionDenied, "Resource busy"), FailureClass::PermissionDenied);
    assert_eq!(classify_failure(IoErrorKind::ReadOnlyFilesystem, "text file busy"), FailureClass::ReadOnly);
    let denied = copy_failure_outcome(FailureClass::PermissionDenied, "File busy: Resource busy");
    assert_eq!(retry_decision(0, 3, &denied), RetryDecision::Finish);
    let readonly = move_failure_outcome(FailureClass::ReadOnly, "Resource busy");
    assert_eq!(retry_decision(0, 3, &readonly), RetryDecision::Finish);
    assert!(!is_transient_error("Permission denied: File busy"));
}
