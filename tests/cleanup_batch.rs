use session_manager::batch::{cleanup_copy_path, BatchCleanup, BatchError, CleanupAction, CleanupPhase};
use session_manager::restore::DirectRestoreEngine;
use session_manager::cleanup::{
    check_cleanup_safety_warnings, safety_warning_for,
    validate_file_content_sample, validate_file_restoration_safety, validate_rollback_disk_space,
    CleanupError, CleanupSafetyWarning, CleanupValidationFailure, CleanupValidationResult, FileFacts,
    FileRecord, SampleMismatch, ValidationError, ASSUMED_AVAILABLE_SPACE,
};

fn regular(size: u64) -> FileFacts {
    FileFacts { exists: true, metadata_readable: true, is_file: true, size, openable: true }
}

fn missing() -> FileFacts {
    FileFacts { exists: false, metadata_readable: false, is_file: false, size: 0, openable: false }
}

fn record(path: &str, facts: FileFacts) -> FileRecord {
    FileRecord { path: path.to_string(), facts }
}

#[test]
fn test_cleanup_safety_warnings() {
    let warning = check_cleanup_safety_warnings(&record("/backup/etc/passwd", missing()));
    assert!(warning.is_some());
    assert_eq!(warning.unwrap().warning_type, "system_file");

    let warning = check_cleanup_safety_warnings(&record("/backup/home/user/document.txt", missing()));
    assert!(warning.is_none());
}

#[test]
fn test_file_restoration_safety_validation() {
    let content = "test content";
    let backup = regular(content.len() as u64);
    let target = regular(content.len() as u64);
    assert!(validate_file_restoration_safety(&backup, &target).is_ok());

    let result = validate_file_restoration_safety(&backup, &missing());
    assert!(result.is_err());
    assert!(result.unwrap_err().message().contains("Target file does not exist"));
}

#[test]
fn test_content_sample_validation() {
    let same = b"identical content for both files";
    assert!(validate_file_content_sample(same, same).is_ok());

    let result = validate_file_content_sample(same, b"different content");
    assert!(result.is_err());
    assert!(result.unwrap_err().message().contains("mismatch"));
}

#[test]
fn test_cleanup_validation_result_structure() {
    let validation_result = CleanupValidationResult {
        total_files: 5,
        validated_files: 3,
        failed_validations: vec![CleanupValidationFailure {
            backup_file: "/backup/file1.txt".to_string(),
            target_file: "/target/file1.txt".to_string(),
            error: "Size mismatch".to_string(),
            validation_phase: "pre-cleanup".to_string(),
        }],
        safety_warnings: vec![CleanupSafetyWarning {
            file_path: "/backup/etc/passwd".to_string(),
            warning_type: "system_file".to_string(),
            message: "System file detected".to_string(),
            severity: "medium".to_string(),
        }],
    };

    assert_eq!(validation_result.total_files, 5);
    assert_eq!(validation_result.validated_files, 3);
    assert_eq!(validation_result.failed_validations.len(), 1);
    assert_eq!(validation_result.safety_warnings.len(), 1);
}

#[test]
fn size_mismatch_is_a_hard_failure() {
    let r = validate_file_restoration_safety(&regular(12), &regular(11));
    assert_eq!(r, Err(ValidationError::SizeMismatch { backup: 12, target: 11 }));
    assert_eq!(r.unwrap_err().message(), "File size mismatch: backup=12 bytes, target=11 bytes");
}

#[test]
fn every_validation_error_has_its_input() {
    let mut unreadable = regular(1);
    unreadable.metadata_readable = false;
    let mut dir = regular(1);
    dir.is_file = false;
    let mut closed = regular(1);
    closed.openable = false;
    assert_eq!(validate_file_restoration_safety(&missing(), &regular(1)), Err(ValidationError::BackupMissing));
    assert_eq!(
        validate_file_restoration_safety(&unreadable, &regular(1)),
        Err(ValidationError::BackupMetadataUnreadable)
    );
    assert_eq!(validate_file_restoration_safety(&dir, &regular(1)), Err(ValidationError::BackupNotRegular));
    assert_eq!(validate_file_restoration_safety(&regular(1), &missing()), Err(ValidationError::TargetMissing));
    assert_eq!(
        validate_file_restoration_safety(&regular(1), &unreadable),
        Err(ValidationError::TargetMetadataUnreadable)
    );
    assert_eq!(validate_file_restoration_safety(&regular(1), &closed), Err(ValidationError::TargetNotAccessible));
}

#[test]
fn content_samples_of_other_lengths() {
    assert_eq!(
        validate_file_content_sample(b"abc", b"ab"),
        Err(SampleMismatch::Length { backup: 3, target: 2 })
    );
    assert_eq!(
        SampleMismatch::Length { backup: 3, target: 2 }.message(),
        "Content sample size mismatch: backup=3 bytes, target=2 bytes"
    );
    assert_eq!(validate_file_content_sample(b"abc", b"abd"), Err(SampleMismatch::Content));
}

#[test]
fn large_files_and_system_paths_are_flagged() {
    let w = safety_warning_for("/b/home/big.iso", "/b/home/big.iso", Some(200 * 1024 * 1024)).unwrap();
    assert_eq!(w.warning_type, "large_file");
    assert_eq!(w.severity, "low");
    assert_eq!(w.message, "Large backup file (209715200 bytes) - cleanup may take time");
    assert!(safety_warning_for("/b/home/x", "/b/home/x", Some(100 * 1024 * 1024)).is_none());
    let w = check_cleanup_safety_warnings(&record("/backup/USR/SBIN/tool", regular(1))).unwrap();
    assert_eq!(w.warning_type, "system_file");
    assert_eq!(w.severity, "medium");
    assert_eq!(w.file_path, "/backup/USR/SBIN/tool");
}

#[test]
fn rollback_space_needs_twice_the_total() {
    let files = vec![record("/b/a", regular(600)), record("/b/b", regular(400))];
    assert!(validate_rollback_disk_space(&files, 2000).is_none());
    let w = validate_rollback_disk_space(&files, 1999).unwrap();
    assert_eq!(w.warning_type, "disk_space");
    assert_eq!(w.severity, "high");
    assert_eq!(w.file_path, "system");
    assert_eq!(w.message, "Insufficient disk space for rollback operations: need 2000 bytes, have 1999 bytes");
    assert!(validate_rollback_disk_space(&files, ASSUMED_AVAILABLE_SPACE).is_none());
}

#[test]
fn preflight_lists_failures_and_warnings_in_order() {
    let backups = vec![
        record("/b/etc/passwd", regular(5)),
        record("/b/home/a", regular(5)),
        record("/b/home/c", missing()),
    ];
    let targets = vec![record("/etc/passwd", regular(5)), record("/home/a", regular(4)), record("/home/c", regular(1))];
    let r = DirectRestoreEngine::new(false, 300).validate_backup_cleanup_safety(&backups, &targets, ASSUMED_AVAILABLE_SPACE).unwrap();
    assert_eq!(r.total_files, 3);
    assert_eq!(r.validated_files, 1);
    assert_eq!(r.failed_validations.len(), 2);
    assert_eq!(r.failed_validations[0].backup_file, "/b/home/a");
    assert_eq!(r.failed_validations[0].error, "File size mismatch: backup=5 bytes, target=4 bytes");
    assert_eq!(r.failed_validations[0].validation_phase, "pre-cleanup");
    assert_eq!(r.failed_validations[1].error, "Backup file does not exist");
    assert_eq!(r.safety_warnings.len(), 1);
    assert_eq!(r.safety_warnings[0].file_path, "/b/etc/passwd");

    let short = vec![record("/b/x", regular(1))];
    assert!(matches!(
        DirectRestoreEngine::new(false, 300).validate_backup_cleanup_safety(&short, &targets, 0),
        Err(CleanupError::LengthMismatch { backups: 1, targets: 3 })
    ));
}

fn paths(prefix: &str, n: usize) -> Vec<String> {
    (0..n).map(|i| format!("{}/file{}.txt", prefix, i)).collect()
}

/// Drives a batch of `n` pairs in which the deletion of pair `fail_at`
/// (counted from 0) fails, every other step succeeding.
fn run_batch(n: usize, fail_at: Option<usize>) -> (BatchCleanup, Vec<CleanupAction>) {
    run_batch_restoring(n, fail_at, true)
}

fn run_batch_restoring(n: usize, fail_at: Option<usize>, restores_work: bool) -> (BatchCleanup, Vec<CleanupAction>) {
    let mut batch = BatchCleanup::new(paths("/backup", n), paths("/target", n), 0).ok().unwrap();
    let mut actions = Vec::new();
    loop {
        let action = batch.next_action();
        actions.push(action);
        match action {
            CleanupAction::CopyAside(i) => batch.record_copy(Ok(format!("/backup/file{}.cleanup_backup_1", i))),
            CleanupAction::Recheck(_) => batch.record_recheck(&regular(7), &regular(7)),
            CleanupAction::Remove(i) => {
                if Some(i) == fail_at {
                    batch.record_removal(Err("Device or resource busy".to_string()))
                } else {
                    batch.record_removal(Ok(()))
                }
            }
            CleanupAction::RestoreFromCopy(_) => batch.record_restore(restores_work),
            CleanupAction::DiscardCopies { .. } => batch.record_discarded(),
            CleanupAction::Finish => return (batch, actions),
        }
    }
}

#[test]
fn failed_deletion_rolls_back_everything_before_it() {
    let (batch, actions) = run_batch(5, Some(2));
    assert!(actions.contains(&CleanupAction::RestoreFromCopy(0)));
    assert!(actions.contains(&CleanupAction::RestoreFromCopy(1)));
    assert!(!actions.contains(&CleanupAction::Remove(3)));
    assert!(!actions.contains(&CleanupAction::Remove(4)));
    assert!(actions.contains(&CleanupAction::DiscardCopies { from: 2, to: 5 }));
    let result = batch.finish().unwrap();
    assert_eq!(result.total_files, 5);
    assert_eq!(result.successful_cleanups, 2);
    assert_eq!(result.failed_cleanups, 1);
    assert_eq!(result.rollback_operations, 2);
    assert_eq!(result.cleanup_details.len(), 3);
    assert_eq!(result.cleanup_details[2].status, "failed");
    assert_eq!(result.cleanup_details[2].message, "Cleanup failed: Device or resource busy");
}

#[test]
fn clean_batch_deletes_all_and_discards_copies() {
    let (batch, actions) = run_batch(3, None);
    assert!(actions.contains(&CleanupAction::DiscardCopies { from: 0, to: 3 }));
    let result = batch.finish().unwrap();
    assert_eq!(result.successful_cleanups, 3);
    assert_eq!(result.failed_cleanups, 0);
    assert_eq!(result.rollback_operations, 0);
}

#[test]
fn failed_recheck_stops_before_deleting() {
    let mut batch = BatchCleanup::new(paths("/b", 2), paths("/t", 2), 0).ok().unwrap();
    batch.record_copy(Ok("/b/file0.cleanup_backup_1".to_string()));
    batch.record_copy(Ok("/b/file1.cleanup_backup_1".to_string()));
    assert_eq!(batch.next_action(), CleanupAction::Recheck(0));
    batch.record_recheck(&regular(3), &regular(4));
    assert_eq!(batch.next_action(), CleanupAction::DiscardCopies { from: 0, to: 2 });
    batch.record_discarded();
    let result = batch.finish().unwrap();
    assert_eq!(result.successful_cleanups, 0);
    assert_eq!(result.failed_cleanups, 1);
    assert_eq!(result.cleanup_details[0].status, "validation_failed");
    assert_eq!(
        result.cleanup_details[0].message,
        "Pre-cleanup validation failed: File size mismatch: backup=3 bytes, target=4 bytes"
    );
}

#[test]
fn failed_temp_copy_aborts_the_batch() {
    let mut batch = BatchCleanup::new(paths("/b", 3), paths("/t", 3), 0).ok().unwrap();
    batch.record_copy(Ok("/b/file0.cleanup_backup_1".to_string()));
    batch.record_copy(Err("No space left on device".to_string()));
    assert_eq!(batch.next_action(), CleanupAction::DiscardCopies { from: 0, to: 1 });
    batch.record_discarded();
    assert_eq!(batch.next_action(), CleanupAction::Finish);
    assert_eq!(
        batch.finish().err(),
        Some(BatchError::TempCopyFailed { index: 1, message: "No space left on device".to_string() })
    );
}

#[test]
fn preflight_failures_touch_nothing() {
    assert!(matches!(
        BatchCleanup::new(paths("/b", 2), paths("/t", 2), 1),
        Err(CleanupError::PreflightFailed(1))
    ));
    assert!(matches!(
        BatchCleanup::new(paths("/b", 2), paths("/t", 1), 0),
        Err(CleanupError::LengthMismatch { backups: 2, targets: 1 })
    ));
    let empty = BatchCleanup::new(Vec::new(), Vec::new(), 0).ok().unwrap();
    assert_eq!(empty.next_action(), CleanupAction::DiscardCopies { from: 0, to: 0 });
    let _ = CleanupPhase::Finished;
}

#[test]
fn temporary_copies_are_named_by_time() {
    assert_eq!(cleanup_copy_path("/b/file.txt", 1700000000), "/b/file.txt.cleanup_backup_1700000000");
    assert_eq!(cleanup_copy_path("/b/noext", 5), "/b/noext.cleanup_backup_5");
    assert_ne!(cleanup_copy_path("/d/a.txt", 5), cleanup_copy_path("/d/a.log", 5));
}

#[test]
fn failed_restore_is_an_error_naming_the_kept_copies() {
    let (batch, _) = run_batch_restoring(3, Some(2), false);
    assert_eq!(
        batch.finish().err(),
        Some(BatchError::RollbackFailed {
            kept_copies: vec!["/backup/file0.cleanup_backup_1".to_string(), "/backup/file1.cleanup_backup_1".to_string()]
        })
    );
}
