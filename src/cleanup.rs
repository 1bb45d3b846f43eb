//! Safety checks before a backup copy is deleted, and the advisory warnings
//! of a cleanup pre-flight.
use vstd::prelude::*;
use crate::restore::DirectRestoreEngine;
use crate::text::{append_decimal, contains_text, decimal, has_substring, lower_of, to_lower};

verus! {

/// What is known of one file on disk.
#[derive(Debug, Clone, Copy, PartialEq, Eq, Structural)]
pub struct FileFacts {
    /// The path exists.
    pub exists: bool,
    /// Its metadata could be read; `is_file` and `size` hold only then.
    pub metadata_readable: bool,
    pub is_file: bool,
    pub size: u64,
    /// It can be opened for reading.
    pub openable: bool,
}

/// A file's path with what is known of it.
#[derive(Debug, Clone)]
pub struct FileRecord {
    pub path: String,
    pub facts: FileFacts,
}

/// Why a (backup, target) pair may not be cleaned up.
#[derive(Debug, Clone, Copy, PartialEq, Eq, Structural)]
pub enum ValidationError {
    BackupMissing,
    BackupMetadataUnreadable,
    BackupNotRegular,
    TargetMissing,
    TargetMetadataUnreadable,
    SizeMismatch { backup: u64, target: u64 },
    TargetNotAccessible,
}

/// The verdict on a pair, checks taken in order: the backup exists and is a
/// regular file, the target exists, the sizes are equal, the target opens.
pub open spec fn restoration_verdict(b: FileFacts, t: FileFacts) -> Result<(), ValidationError> {
    if !b.exists {
        Err(ValidationError::BackupMissing)
    } else if !b.metadata_readable {
        Err(ValidationError::BackupMetadataUnreadable)
    } else if !b.is_file {
        Err(ValidationError::BackupNotRegular)
    } else if !t.exists {
        Err(ValidationError::TargetMissing)
    } else if !t.metadata_readable {
        Err(ValidationError::TargetMetadataUnreadable)
    } else if b.size != t.size {
        Err(ValidationError::SizeMismatch { backup: b.size, target: t.size })
    } else if !t.openable {
        Err(ValidationError::TargetNotAccessible)
    } else {
        Ok(())
    }
}

/// Checks that the backup copy of a restored file may be deleted.
pub fn validate_file_restoration_safety(backup: &FileFacts, target: &FileFacts) -> (r: Result<
    (),
    ValidationError,
>)
    ensures
        r == restoration_verdict(*backup, *target),
{
    if !backup.exists {
        Err(ValidationError::BackupMissing)
    } else if !backup.metadata_readable {
        Err(ValidationError::BackupMetadataUnreadable)
    } else if !backup.is_file {
        Err(ValidationError::BackupNotRegular)
    } else if !target.exists {
        Err(ValidationError::TargetMissing)
    } else if !target.metadata_readable {
        Err(ValidationError::TargetMetadataUnreadable)
    } else if backup.size != target.size {
        Err(ValidationError::SizeMismatch { backup: backup.size, target: target.size })
    } else if !target.openable {
        Err(ValidationError::TargetNotAccessible)
    } else {
        Ok(())
    }
}

/// The text that describes a validation error.
pub open spec fn validation_text(e: ValidationError) -> Seq<char> {
    match e {
        ValidationError::BackupMissing => "Backup file does not exist"@,
        ValidationError::BackupMetadataUnreadable => "Cannot read backup file metadata"@,
        ValidationError::BackupNotRegular => "Backup path is not a regular file"@,
        ValidationError::TargetMissing => "Target file does not exist"@,
        ValidationError::TargetMetadataUnreadable => "Cannot read target file metadata"@,
        ValidationError::SizeMismatch { backup, target } => "File size mismatch: backup="@
            + decimal(backup as nat) + " bytes, target="@ + decimal(target as nat) + " bytes"@,
        ValidationError::TargetNotAccessible => "Target file is not accessible"@,
    }
}

impl ValidationError {
    /// Describes the error.
    pub fn message(&self) -> (r: String)
        ensures
            r@ == validation_text(*self),
    {
        match self {
            ValidationError::BackupMissing => String::from_str("Backup file does not exist"),
            ValidationError::BackupMetadataUnreadable => String::from_str(
                "Cannot read backup file metadata",
            ),
            ValidationError::BackupNotRegular => String::from_str(
                "Backup path is not a regular file",
            ),
            ValidationError::TargetMissing => String::from_str("Target file does not exist"),
            ValidationError::TargetMetadataUnreadable => String::from_str(
                "Cannot read target file metadata",
            ),
            ValidationError::SizeMismatch { backup, target } => {
                let mut r = String::from_str("File size mismatch: backup=");
                append_decimal(&mut r, *backup as u128);
                r.append(" bytes, target=");
                append_decimal(&mut r, *target as u128);
                r.append(" bytes");
                r
            },
            ValidationError::TargetNotAccessible => String::from_str(
                "Target file is not accessible",
            ),
        }
    }
}

/// How many leading bytes of each file the content check compares.
pub const CONTENT_SAMPLE_SIZE: usize = 1024;

/// Why two content samples differ.
#[derive(Debug, Clone, Copy, PartialEq, Eq, Structural)]
pub enum SampleMismatch {
    Length { backup: usize, target: usize },
    Content,
}

impl SampleMismatch {
    /// Describes the mismatch.
    pub fn message(&self) -> (r: String)
        ensures
            r@ == match *self {
                SampleMismatch::Length { backup, target } => "Content sample size mismatch: backup="@
                    + decimal(backup as nat) + " bytes, target="@ + decimal(target as nat)
                    + " bytes"@,
                SampleMismatch::Content => "Content sample mismatch detected"@,
            },
    {
        match self {
            SampleMismatch::Length { backup, target } => {
                let mut r = String::from_str("Content sample size mismatch: backup=");
                append_decimal(&mut r, *backup as u128);
                r.append(" bytes, target=");
                append_decimal(&mut r, *target as u128);
                r.append(" bytes");
                r
            },
            SampleMismatch::Content => String::from_str("Content sample mismatch detected"),
        }
    }
}

/// Compares the leading samples read from a backup file and its target. A
/// mismatch is only ever a warning: the running container may have rewritten
/// the target since.
pub fn validate_file_content_sample(backup: &[u8], target: &[u8]) -> (r: Result<
    (),
    SampleMismatch,
>)
    ensures
        r is Ok <==> backup@ == target@,
        backup@.len() != target@.len() ==> r == Err::<(), SampleMismatch>(
            SampleMismatch::Length { backup: backup@.len() as usize, target: target@.len() as usize },
        ),
        backup@.len() == target@.len() && backup@ != target@ ==> r == Err::<(), SampleMismatch>(
            SampleMismatch::Content,
        ),
{
    if backup.len() != target.len() {
        return Err(SampleMismatch::Length { backup: backup.len(), target: target.len() });
    }
    let mut i: usize = 0;
    while i < backup.len()
        invariant
            backup@.len() == target@.len(),
            i <= backup@.len(),
            forall|j: int| 0 <= j < i ==> backup@[j] == target@[j],
        decreases backup@.len() - i,
    {
        if backup[i] != target[i] {
            return Err(SampleMismatch::Content);
        }
        i += 1;
    }
    assert(backup@ =~= target@);
    Ok(())
}

/// An advisory note on a file about to be cleaned up.
#[derive(Debug, Clone, PartialEq, Eq)]
pub struct CleanupSafetyWarning {
    pub file_path: String,
    pub warning_type: String,
    pub message: String,
    pub severity: String,
}

/// Files above this size get a warning that their cleanup may take time.
pub const LARGE_FILE_BYTES: u64 = 104857600;

/// A lower-cased path that looks like a system file.
pub open spec fn system_path(lowered: Seq<char>) -> bool {
    has_substring(lowered, "/etc/"@) || has_substring(lowered, "/bin/"@) || has_substring(
        lowered,
        "/sbin/"@,
    )
}

/// `w` is the warning for `path` (lower-cased `lowered`, of size `size` when
/// known): a system file first, else a large file, else none.
pub open spec fn warning_holds(
    path: Seq<char>,
    lowered: Seq<char>,
    size: Option<u64>,
    w: Option<CleanupSafetyWarning>,
) -> bool {
    if system_path(lowered) {
        w matches Some(x) && x.file_path@ == path && x.warning_type@ == "system_file"@
            && x.message@ == "Backup file appears to be a system file"@ && x.severity@
            == "medium"@
    } else if size matches Some(n) && n > LARGE_FILE_BYTES {
        w matches Some(x) && x.file_path@ == path && x.warning_type@ == "large_file"@
            && x.message@ == "Large backup file ("@ + decimal(size->0 as nat)
            + " bytes) - cleanup may take time"@ && x.severity@ == "low"@
    } else {
        w is None
    }
}

/// The warning for `path`, given its lower-cased form and its size if known.
pub fn safety_warning_for(path: &str, lowered: &str, size: Option<u64>) -> (r: Option<
    CleanupSafetyWarning,
>)
    ensures
        warning_holds(path@, lowered@, size, r),
{
    if contains_text(lowered, "/etc/") || contains_text(lowered, "/bin/") || contains_text(
        lowered,
        "/sbin/",
    ) {
        return Some(
            CleanupSafetyWarning {
                file_path: String::from_str(path),
                warning_type: String::from_str("system_file"),
                message: String::from_str("Backup file appears to be a system file"),
                severity: String::from_str("medium"),
            },
        );
    }
    match size {
        Some(n) => {
            if n > LARGE_FILE_BYTES {
                let mut message = String::from_str("Large backup file (");
                append_decimal(&mut message, n as u128);
                message.append(" bytes) - cleanup may take time");
                Some(
                    CleanupSafetyWarning {
                        file_path: String::from_str(path),
                        warning_type: String::from_str("large_file"),
                        message,
                        severity: String::from_str("low"),
                    },
                )
            } else {
                None
            }
        },
        None => None,
    }
}

/// The size of a file when its metadata could be read.
pub open spec fn known_size(f: FileFacts) -> Option<u64> {
    if f.metadata_readable {
        Some(f.size)
    } else {
        None
    }
}

/// The warning for a backup file about to be cleaned up.
pub fn check_cleanup_safety_warnings(backup: &FileRecord) -> (r: Option<CleanupSafetyWarning>)
    ensures
        warning_holds(backup.path@, lower_of(backup.path@), known_size(backup.facts), r),
{
    let lowered = to_lower(backup.path.as_str());
    let size = if backup.facts.metadata_readable {
        Some(backup.facts.size)
    } else {
        None
    };
    safety_warning_for(backup.path.as_str(), lowered.as_str(), size)
}

/// The free space assumed for temporary copies: no file-system query stands
/// behind it, so the check it feeds is advisory.
pub const ASSUMED_AVAILABLE_SPACE: u64 = 1073741824;

/// The total known size of `fs`.
pub open spec fn total_size(fs: Seq<FileRecord>) -> nat
    decreases fs.len(),
{
    if fs.len() == 0 {
        0
    } else {
        total_size(fs.drop_last()) + match known_size(fs.last().facts) {
            Some(n) => n as nat,
            None => 0,
        }
    }
}

/// `n`, held at the largest `u128` when larger.
pub open spec fn capped_u128(n: nat) -> nat {
    if n <= u128::MAX {
        n
    } else {
        u128::MAX as nat
    }
}

/// The warning raised when temporary copies of `backups` (twice their total
/// size) may not fit in `available` bytes.
pub open spec fn space_warning_holds(
    backups: Seq<FileRecord>,
    available: u64,
    w: Option<CleanupSafetyWarning>,
) -> bool {
    if available < 2 * total_size(backups) {
        w matches Some(x) && x.file_path@ == "system"@ && x.warning_type@ == "disk_space"@
            && x.message@ == "Insufficient disk space for rollback operations: need "@ + decimal(
            capped_u128(2 * total_size(backups)),
        ) + " bytes, have "@ + decimal(available as nat) + " bytes"@ && x.severity@ == "high"@
    } else {
        w is None
    }
}

/// Checks that temporary copies of all of `backups` fit in `available` bytes.
pub fn validate_rollback_disk_space(backups: &Vec<FileRecord>, available: u64) -> (r: Option<
    CleanupSafetyWarning,
>)
    ensures
        space_warning_holds(backups@, available, r),
{
    let mut total: u128 = 0;
    let mut i: usize = 0;
    while i < backups.len()
        invariant
            i <= backups@.len(),
            total as nat == total_size(backups@.subrange(0, i as int)),
            total <= i as nat * u64::MAX as nat,
        decreases backups@.len() - i,
    {
        assert(backups@.subrange(0, i + 1).drop_last() =~= backups@.subrange(0, i as int));
        if backups[i].facts.metadata_readable {
            let size = backups[i].facts.size;
            proof {
                let ii = i as nat;
                let m = u64::MAX as nat;
                assert(total as nat + size as nat <= (ii + 1) * m) by (nonlinear_arith)
                    requires
                        total as nat <= ii * m,
                        size as nat <= m,
                ;
                assert((ii + 1) * m <= 0x1_0000_0000_0000_0000 * m) by (nonlinear_arith)
                    requires
                        ii + 1 <= 0x1_0000_0000_0000_0000,
                ;
            }
            total = total + size as u128;
        } else {
            proof {
                let ii = i as nat;
                let m = u64::MAX as nat;
                assert(ii * m <= (ii + 1) * m) by (nonlinear_arith);
            }
        }
        i += 1;
    }
    assert(backups@.subrange(0, backups@.len() as int) =~= backups@);
    let required: u128 = if total <= u128::MAX / 2 {
        total * 2
    } else {
        u128::MAX
    };
    if (available as u128) < required {
        let mut message = String::from_str("Insufficient disk space for rollback operations: need ");
        append_decimal(&mut message, required);
        message.append(" bytes, have ");
        append_decimal(&mut message, available as u128);
        message.append(" bytes");
        Some(
            CleanupSafetyWarning {
                file_path: String::from_str("system"),
                warning_type: String::from_str("disk_space"),
                message,
                severity: String::from_str("high"),
            },
        )
    } else {
        None
    }
}

/// A pair that failed the pre-flight check.
#[derive(Debug, Clone, PartialEq, Eq)]
pub struct CleanupValidationFailure {
    pub backup_file: String,
    pub target_file: String,
    pub error: String,
    pub validation_phase: String,
}

/// The pre-flight report over a list of (backup, target) pairs.
#[derive(Debug)]
pub struct CleanupValidationResult {
    pub total_files: usize,
    pub validated_files: usize,
    pub failed_validations: Vec<CleanupValidationFailure>,
    pub safety_warnings: Vec<CleanupSafetyWarning>,
}

/// Why a list of pairs could not be taken up at all.
#[derive(Debug, Clone, Copy, PartialEq, Eq, Structural)]
pub enum CleanupError {
    /// The backup and target lists differ in length.
    LengthMismatch { backups: usize, targets: usize },
    /// This many pairs failed the pre-flight check: nothing was touched.
    PreflightFailed(usize),
}

/// The indices below `n` at which `pred` holds, in order.
pub open spec fn indices_where(n: int, pred: spec_fn(int) -> bool) -> Seq<int>
    decreases n,
{
    if n <= 0 {
        Seq::empty()
    } else {
        let r = indices_where(n - 1, pred);
        if pred(n - 1) {
            r.push(n - 1)
        } else {
            r
        }
    }
}

proof fn lemma_indices_bounded(n: int, pred: spec_fn(int) -> bool)
    requires
        n >= 0,
    ensures
        indices_where(n, pred).len() <= n,
        forall|j: int|
            0 <= j < indices_where(n, pred).len() ==> 0 <= #[trigger] indices_where(n, pred)[j] < n,
    decreases n,
{
    if n > 0 {
        lemma_indices_bounded(n - 1, pred);
    }
}

/// Pair `i` fails its check.
pub open spec fn pair_fails(b: Seq<FileRecord>, t: Seq<FileRecord>) -> spec_fn(int) -> bool {
    |i: int| restoration_verdict(b[i].facts, t[i].facts) is Err
}

/// Backup `i` draws a warning.
pub open spec fn file_warned(b: Seq<FileRecord>) -> spec_fn(int) -> bool {
    |i: int|
        system_path(lower_of(b[i].path@)) || (known_size(b[i].facts) matches Some(n) && n
            > LARGE_FILE_BYTES)
}

/// `f` reports pair `i` failing.
pub open spec fn failure_holds(
    b: Seq<FileRecord>,
    t: Seq<FileRecord>,
    i: int,
    f: CleanupValidationFailure,
) -> bool {
    &&& f.backup_file@ == b[i].path@
    &&& f.target_file@ == t[i].path@
    &&& f.error@ == validation_text(restoration_verdict(b[i].facts, t[i].facts)->Err_0)
    &&& f.validation_phase@ == "pre-cleanup"@
}

impl DirectRestoreEngine {
    /// The pre-flight over pairs `(backups[i], targets[i])`: each pair is checked
    /// (the failures are listed in order), each backup file draws its warning if
    /// any (in order), and a last warning is added when the temporary copies may
    /// not fit in `available` bytes.
    pub fn validate_backup_cleanup_safety(
        &self,
        backups: &Vec<FileRecord>,
        targets: &Vec<FileRecord>,
        available: u64,
    ) -> (r: Result<CleanupValidationResult, CleanupError>)
        ensures
            backups@.len() != targets@.len() ==> r == Err::<CleanupValidationResult, CleanupError>(
                CleanupError::LengthMismatch {
                    backups: backups@.len() as usize,
                    targets: targets@.len() as usize,
                },
            ),
            backups@.len() == targets@.len() ==> (r matches Ok(v) && {
                let fails = indices_where(backups@.len() as int, pair_fails(backups@, targets@));
                let warned = indices_where(backups@.len() as int, file_warned(backups@));
                &&& v.total_files == backups@.len()
                &&& v.validated_files == backups@.len() - fails.len()
                &&& v.failed_validations@.len() == fails.len()
                &&& forall|j: int|
                    0 <= j < fails.len() ==> failure_holds(
                        backups@,
                        targets@,
                        fails[j],
                        #[trigger] v.failed_validations@[j],
                    )
                &&& v.safety_warnings@.len() == warned.len() + if available < 2 * total_size(
                    backups@,
                ) {
                    1int
                } else {
                    0
                }
                &&& forall|j: int|
                    0 <= j < warned.len() ==> warning_holds(
                        backups@[warned[j]].path@,
                        lower_of(backups@[warned[j]].path@),
                        known_size(backups@[warned[j]].facts),
                        Some(#[trigger] v.safety_warnings@[j]),
                    )
                &&& available < 2 * total_size(backups@) ==> space_warning_holds(
                    backups@,
                    available,
                    Some(v.safety_warnings@.last()),
                )
            }),
    {
        if backups.len() != targets.len() {
            return Err(CleanupError::LengthMismatch { backups: backups.len(), targets: targets.len() });
        }
        let n = backups.len();
        let ghost pf = pair_fails(backups@, targets@);
        let ghost fw = file_warned(backups@);
        let mut failures: Vec<CleanupValidationFailure> = Vec::new();
        let mut validated: usize = 0;
        let mut i: usize = 0;
        while i < n
            invariant
                n == backups@.len(),
                n == targets@.len(),
                i <= n,
                pf == pair_fails(backups@, targets@),
                failures@.len() == indices_where(i as int, pf).len(),
                validated == i - indices_where(i as int, pf).len(),
                forall|j: int|
                    0 <= j < failures@.len() ==> failure_holds(
                        backups@,
                        targets@,
                        indices_where(i as int, pf)[j],
                        #[trigger] failures@[j],
                    ),
            decreases n - i,
        {
            proof {
                lemma_indices_bounded(i as int, pf);
            }
            let ghost before = failures@;
            match validate_file_restoration_safety(&backups[i].facts, &targets[i].facts) {
                Ok(()) => {
                    validated = validated + 1;
                },
                Err(e) => {
                    let f = CleanupValidationFailure {
                        backup_file: backups[i].path.clone(),
                        target_file: targets[i].path.clone(),
                        error: e.message(),
                        validation_phase: String::from_str("pre-cleanup"),
                    };
                    failures.push(f);
                    assert forall|j: int| 0 <= j < failures@.len() implies failure_holds(
                        backups@,
                        targets@,
                        indices_where(i + 1, pf)[j],
                        #[trigger] failures@[j],
                    ) by {
                        if j < before.len() {
                            assert(failures@[j] == before[j]);
                        }
                    }
                },
            }
            i += 1;
        }
        let mut warnings: Vec<CleanupSafetyWarning> = Vec::new();
        let mut k: usize = 0;
        while k < n
            invariant
                n == backups@.len(),
                k <= n,
                fw == file_warned(backups@),
                warnings@.len() == indices_where(k as int, fw).len(),
                forall|j: int|
                    0 <= j < warnings@.len() ==> warning_holds(
                        backups@[indices_where(k as int, fw)[j]].path@,
                        lower_of(backups@[indices_where(k as int, fw)[j]].path@),
                        known_size(backups@[indices_where(k as int, fw)[j]].facts),
                        Some(#[trigger] warnings@[j]),
                    ),
            decreases n - k,
        {
            let ghost before = warnings@;
            match check_cleanup_safety_warnings(&backups[k]) {
                Some(w) => {
                    warnings.push(w);
                    assert forall|j: int| 0 <= j < warnings@.len() implies warning_holds(
                        backups@[indices_where(k + 1, fw)[j]].path@,
                        lower_of(backups@[indices_where(k + 1, fw)[j]].path@),
                        known_size(backups@[indices_where(k + 1, fw)[j]].facts),
                        Some(#[trigger] warnings@[j]),
                    ) by {
                        if j < before.len() {
                            assert(warnings@[j] == before[j]);
                        }
                    }
                },
                None => {},
            }
            k += 1;
        }
        let ghost file_warnings = warnings@;
        match validate_rollback_disk_space(backups, available) {
            Some(w) => {
                warnings.push(w);
                assert forall|j: int| 0 <= j < file_warnings.len() implies warnings@[j]
                    == file_warnings[j] by {}
            },
            None => {},
        }
        Ok(
            CleanupValidationResult {
                total_files: n,
                validated_files: validated,
                failed_validations: failures,
                safety_warnings: warnings,
            },
        )
    }
}

} // verus!
