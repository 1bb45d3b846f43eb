//! Classification of failed file operations into skip, retry and failure
//! outcomes.
use vstd::prelude::*;
use crate::text::{contains_text, has_prefix, has_substring, lower_of, starts_with_text, to_lower};

verus! {

/// The kind of an operating-system error, as far as classification needs it.
#[derive(Debug, Clone, Copy, PartialEq, Eq, Structural)]
pub enum IoErrorKind {
    ResourceBusy,
    ReadOnlyFilesystem,
    PermissionDenied,
    CrossesDevices,
    Other,
}

/// The outcome of one transfer of one file.
#[derive(Debug, Clone, PartialEq, Eq)]
pub enum CopyResult {
    Success,
    Skipped(String),
    Failed(String),
}

/// The bucket a failed operation falls in.
#[derive(Debug, Clone, Copy, PartialEq, Eq, Structural)]
pub enum FailureClass {
    /// Resource busy: skipped, and retried.
    Busy,
    /// Read-only file system: skipped, not retried.
    ReadOnly,
    /// Permission denied: skipped, not retried.
    PermissionDenied,
    /// The move crosses file systems: the copy fallback takes over.
    CrossDevice,
    /// Anything else: a failure.
    Other,
}

pub open spec fn busy_text(lowered: Seq<char>) -> bool {
    has_substring(lowered, "text file busy"@) || has_substring(lowered, "resource busy"@)
        || has_substring(lowered, "device or resource busy"@)
}

pub open spec fn readonly_text(lowered: Seq<char>) -> bool {
    has_substring(lowered, "read-only file system"@) || has_substring(
        lowered,
        "readonly filesystem"@,
    )
}

/// The class of an error of kind `kind` whose lower-cased message is
/// `lowered`: a known kind decides; the message is read only for other kinds.
pub open spec fn class_of(kind: IoErrorKind, lowered: Seq<char>) -> FailureClass {
    match kind {
        IoErrorKind::ResourceBusy => FailureClass::Busy,
        IoErrorKind::ReadOnlyFilesystem => FailureClass::ReadOnly,
        IoErrorKind::PermissionDenied => FailureClass::PermissionDenied,
        IoErrorKind::CrossesDevices => FailureClass::CrossDevice,
        IoErrorKind::Other => if busy_text(lowered) {
            FailureClass::Busy
        } else if readonly_text(lowered) {
            FailureClass::ReadOnly
        } else {
            FailureClass::Other
        },
    }
}

/// Whether the error reports a busy file, by kind or by its lower-cased message.
pub fn is_file_busy(kind: IoErrorKind, lowered: &str) -> (r: bool)
    ensures
        r == (kind == IoErrorKind::ResourceBusy || busy_text(lowered@)),
{
    kind == IoErrorKind::ResourceBusy || contains_text(lowered, "text file busy") || contains_text(
        lowered,
        "resource busy",
    ) || contains_text(lowered, "device or resource busy")
}

/// Whether the error reports a read-only file system, by kind or by its
/// lower-cased message.
pub fn is_file_readonly(kind: IoErrorKind, lowered: &str) -> (r: bool)
    ensures
        r == (kind == IoErrorKind::ReadOnlyFilesystem || readonly_text(lowered@)),
{
    kind == IoErrorKind::ReadOnlyFilesystem || contains_text(lowered, "read-only file system")
        || contains_text(lowered, "readonly filesystem")
}

/// Whether the error is a permission denial.
pub fn is_permission_denied(kind: IoErrorKind) -> (r: bool)
    ensures
        r == (kind == IoErrorKind::PermissionDenied),
{
    kind == IoErrorKind::PermissionDenied
}

/// Classifies an error from its kind and its lower-cased message.
pub fn classify_lowered(kind: IoErrorKind, lowered: &str) -> (r: FailureClass)
    ensures
        r == class_of(kind, lowered@),
{
    match kind {
        IoErrorKind::ResourceBusy => FailureClass::Busy,
        IoErrorKind::ReadOnlyFilesystem => FailureClass::ReadOnly,
        IoErrorKind::PermissionDenied => FailureClass::PermissionDenied,
        IoErrorKind::CrossesDevices => FailureClass::CrossDevice,
        IoErrorKind::Other => {
            if is_file_busy(kind, lowered) {
                FailureClass::Busy
            } else if is_file_readonly(kind, lowered) {
                FailureClass::ReadOnly
            } else {
                FailureClass::Other
            }
        },
    }
}

/// Classifies an error from its kind and its message.
pub fn classify_failure(kind: IoErrorKind, message: &str) -> (r: FailureClass)
    ensures
        r == class_of(kind, lower_of(message@)),
{
    let lowered = to_lower(message);
    classify_lowered(kind, lowered.as_str())
}

/// `prefix` followed by `message`.
pub fn prefixed(prefix: &str, message: &str) -> (r: String)
    ensures
        r@ == prefix@ + message@,
{
    let mut r = String::from_str(prefix);
    r.append(message);
    r
}

/// The outcome of a failed copy of class `class` with message `message`.
pub open spec fn copy_outcome_spec(class: FailureClass, message: Seq<char>, r: CopyResult) -> bool {
    match class {
        FailureClass::Busy => r matches CopyResult::Skipped(s) && s@ == "File busy: "@ + message,
        FailureClass::ReadOnly => r matches CopyResult::Skipped(s) && s@ == "Read-only filesystem: "@
            + message,
        FailureClass::PermissionDenied => r matches CopyResult::Skipped(s) && s@
            == "Permission denied: "@ + message,
        _ => r matches CopyResult::Failed(s) && s@ == "Copy failed: "@ + message,
    }
}

/// The outcome of a failed move of class `class` with message `message`.
pub open spec fn move_outcome_spec(class: FailureClass, message: Seq<char>, r: CopyResult) -> bool {
    match class {
        FailureClass::CrossDevice => r matches CopyResult::Failed(s) && s@
            == "Cross-device move (fallback needed): "@ + message,
        FailureClass::Other => r matches CopyResult::Failed(s) && s@ == "Move failed: "@ + message,
        _ => copy_outcome_spec(class, message, r),
    }
}

/// The outcome of a copy that failed with an error of class `class`.
pub fn copy_failure_outcome(class: FailureClass, message: &str) -> (r: CopyResult)
    ensures
        copy_outcome_spec(class, message@, r),
{
    match class {
        FailureClass::Busy => CopyResult::Skipped(prefixed("File busy: ", message)),
        FailureClass::ReadOnly => CopyResult::Skipped(prefixed("Read-only filesystem: ", message)),
        FailureClass::PermissionDenied => CopyResult::Skipped(
            prefixed("Permission denied: ", message),
        ),
        _ => CopyResult::Failed(prefixed("Copy failed: ", message)),
    }
}

/// The outcome of a move that failed with an error of class `class`.
pub fn move_failure_outcome(class: FailureClass, message: &str) -> (r: CopyResult)
    ensures
        move_outcome_spec(class, message@, r),
{
    match class {
        FailureClass::CrossDevice => CopyResult::Failed(
            prefixed("Cross-device move (fallback needed): ", message),
        ),
        FailureClass::Other => CopyResult::Failed(prefixed("Move failed: ", message)),
        _ => copy_failure_outcome(class, message),
    }
}

/// A skip reason that names a transient condition: it speaks of a busy file,
/// and is not the reason given for a permission denial or a read-only file
/// system, which are never retried.
pub open spec fn transient_reason(reason: Seq<char>) -> bool {
    &&& !has_prefix(reason, "Permission denied: "@)
    &&& !has_prefix(reason, "Read-only filesystem: "@)
    &&& (has_substring(reason, "File busy"@) || has_substring(reason, "Resource busy"@))
}

/// Whether a skip reason names a transient condition worth retrying.
pub fn is_transient_error(reason: &str) -> (r: bool)
    ensures
        r == transient_reason(reason@),
{
    !starts_with_text(reason, "Permission denied: ") && !starts_with_text(
        reason,
        "Read-only filesystem: ",
    ) && (contains_text(reason, "File busy") || contains_text(reason, "Resource busy"))
}

/// An outcome that the retry policy retries: a skip for a transient reason.
pub open spec fn retryable(r: CopyResult) -> bool {
    r matches CopyResult::Skipped(s) && transient_reason(s@)
}

/// Law: an error of kind permission-denied or read-only is classed as such
/// whatever its message says, and the outcome of a copy or a move that failed
/// so is never retried.
pub proof fn law_permanent_skips_not_retried(
    kind: IoErrorKind,
    lowered: Seq<char>,
    message: Seq<char>,
    r: CopyResult,
)
    requires
        kind == IoErrorKind::PermissionDenied || kind == IoErrorKind::ReadOnlyFilesystem,
        copy_outcome_spec(class_of(kind, lowered), message, r) || move_outcome_spec(
            class_of(kind, lowered),
            message,
            r,
        ),
    ensures
        kind == IoErrorKind::PermissionDenied ==> class_of(kind, lowered)
            == FailureClass::PermissionDenied,
        kind == IoErrorKind::ReadOnlyFilesystem ==> class_of(kind, lowered)
            == FailureClass::ReadOnly,
        r is Skipped,
        !retryable(r),
{
    let p1 = "Permission denied: "@;
    let p2 = "Read-only filesystem: "@;
    assert((p1 + message).subrange(0, p1.len() as int) =~= p1);
    assert((p2 + message).subrange(0, p2.len() as int) =~= p2);
}

} // verus!
