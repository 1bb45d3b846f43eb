//! Advisory markers of backup operations: what they record, when one signals
//! a concurrent run, and when an old one may be swept.
use vstd::prelude::*;
use crate::path_map::{with_extension, with_extension_of};

verus! {

/// The state of a marked operation.
#[derive(Debug, Clone, Copy, PartialEq, Eq, Structural)]
pub enum BackupStatus {
    InProgress,
    Completed,
    Failed,
}

/// The marker written beside a protected path.
#[derive(Debug, Clone, PartialEq, Eq)]
pub struct BackupMetadata {
    /// Unix seconds when the marker was written.
    pub started_at: u64,
    pub process_id: u32,
    pub hostname: String,
    pub operation: String,
    pub status: BackupStatus,
}

/// A marker older than this many seconds no longer signals a concurrent run.
pub const STALE_AFTER_SECS: u64 = 1800;

/// The seconds elapsed from `started_at` to `now`, nought if the clock went back.
pub open spec fn age_of(started_at: u64, now: u64) -> nat {
    if now >= started_at {
        (now - started_at) as nat
    } else {
        0
    }
}

/// The marker file of `path`: its extension replaced by `backup_meta`.
pub fn metadata_file_for(path: &str) -> (r: String)
    ensures
        r@ == with_extension_of(path@, "backup_meta"@),
{
    proof {
        reveal_strlit("backup_meta");
    }
    with_extension(path, "backup_meta")
}

/// The host name recorded in markers: `HOSTNAME`, else `POD_NAME`, else
/// `unknown` (the caller reads the variables).
pub fn hostname_from_env(hostname: Option<String>, pod_name: Option<String>) -> (r: String)
    ensures
        r@ == match hostname {
            Some(h) => h@,
            None => match pod_name {
                Some(p) => p@,
                None => "unknown"@,
            },
        },
{
    match hostname {
        Some(h) => h,
        None => match pod_name {
            Some(p) => p,
            None => String::from_str("unknown"),
        },
    }
}

/// Tracks backup operations with markers rather than locks.
#[derive(Debug, Clone, PartialEq, Eq)]
pub struct LocklessBackupManager {
    pub operation_name: String,
    pub enable_metadata: bool,
}

impl LocklessBackupManager {
    /// A manager that writes markers.
    pub fn new(operation_name: String) -> (r: Self)
        ensures
            r.operation_name == operation_name,
            r.enable_metadata,
    {
        LocklessBackupManager { operation_name, enable_metadata: true }
    }

    /// The same manager, writing no markers.
    pub fn disable_metadata(self) -> (r: Self)
        ensures
            r.operation_name == self.operation_name,
            !r.enable_metadata,
    {
        LocklessBackupManager { enable_metadata: false, ..self }
    }

    /// The marker this manager writes at `now` for status `status`.
    pub fn metadata_record(&self, status: BackupStatus, now: u64, process_id: u32, hostname: String) -> (r:
        BackupMetadata)
        ensures
            r.started_at == now,
            r.process_id == process_id,
            r.hostname == hostname,
            r.operation == self.operation_name,
            r.status == status,
    {
        BackupMetadata {
            started_at: now,
            process_id,
            hostname,
            operation: self.operation_name.clone(),
            status,
        }
    }

    /// The status written after an operation: completed on success, failed
    /// otherwise.
    pub fn status_after(succeeded: bool) -> (r: BackupStatus)
        ensures
            r == if succeeded {
                BackupStatus::Completed
            } else {
                BackupStatus::Failed
            },
    {
        if succeeded {
            BackupStatus::Completed
        } else {
            BackupStatus::Failed
        }
    }

    /// Whether a marker read at `now` signals a concurrent run: markers are
    /// enabled, it exists and was readable (`metadata`), it is in progress, and
    /// it is at most 30 minutes old. The signal is advisory only.
    pub fn check_concurrent_backup(&self, metadata: Option<BackupMetadata>, now: u64) -> (r:
        Option<BackupMetadata>)
        ensures
            r == if self.enable_metadata && (metadata matches Some(m) && m.status
                == BackupStatus::InProgress && age_of(m.started_at, now) <= STALE_AFTER_SECS) {
                metadata
            } else {
                None::<BackupMetadata>
            },
    {
        if !self.enable_metadata {
            return None;
        }
        match metadata {
            Some(m) => {
                if m.status == BackupStatus::InProgress {
                    let age = if now >= m.started_at {
                        now - m.started_at
                    } else {
                        0
                    };
                    if age > STALE_AFTER_SECS {
                        None
                    } else {
                        Some(m)
                    }
                } else {
                    None
                }
            },
            None => None,
        }
    }

    /// Whether a marker read at `now` may be swept: markers are enabled, the
    /// operation is over (completed or failed), and it is older than
    /// `max_age_hours`.
    pub fn is_sweepable(&self, metadata: &BackupMetadata, now: u64, max_age_hours: u64) -> (r: bool)
        ensures
            r == (self.enable_metadata && (metadata.status == BackupStatus::Completed
                || metadata.status == BackupStatus::Failed) && age_of(metadata.started_at, now)
                > max_age_hours as nat * 3600),
    {
        if !self.enable_metadata {
            return false;
        }
        let over = metadata.status == BackupStatus::Completed || metadata.status
            == BackupStatus::Failed;
        let age: u64 = if now >= metadata.started_at {
            now - metadata.started_at
        } else {
            0
        };
        over && (age as u128) > (max_age_hours as u128) * 3600
    }
}

} // verus!
