//! Whole-tree transfers: the tally they report, how an external tool's exit
//! status is read, and the decisions of the mount-aware recursive copy.
use vstd::prelude::*;
use crate::path_map::{
    comp_views, excluded_by_mounts, is_path_excluded, relative_components, rooted, rooted_relative,
};
use crate::text::{append_decimal, contains_text, decimal, has_substring};

verus! {

/// The tally of a whole-tree transfer.
#[derive(Debug, Clone, PartialEq, Eq)]
pub struct TransferResult {
    pub success_count: usize,
    pub error_count: usize,
    pub skipped_count: usize,
    pub errors: Vec<String>,
}

impl TransferResult {
    /// An empty tally.
    pub fn new() -> (r: Self)
        ensures
            r.success_count == 0,
            r.error_count == 0,
            r.skipped_count == 0,
            r.errors@.len() == 0,
    {
        TransferResult { success_count: 0, error_count: 0, skipped_count: 0, errors: Vec::new() }
    }

    /// Counts one entry copied.
    pub fn record_copied(&mut self)
        requires
            old(self).success_count < usize::MAX,
        ensures
            final(self).success_count == old(self).success_count + 1,
            final(self).error_count == old(self).error_count,
            final(self).skipped_count == old(self).skipped_count,
            final(self).errors@ == old(self).errors@,
    {
        self.success_count = self.success_count + 1;
    }

    /// Counts one entry left out.
    pub fn record_skipped(&mut self)
        requires
            old(self).skipped_count < usize::MAX,
        ensures
            final(self).skipped_count == old(self).skipped_count + 1,
            final(self).success_count == old(self).success_count,
            final(self).error_count == old(self).error_count,
            final(self).errors@ == old(self).errors@,
    {
        self.skipped_count = self.skipped_count + 1;
    }

    /// Counts one error, with its message.
    pub fn record_error(&mut self, message: String)
        requires
            old(self).error_count < usize::MAX,
        ensures
            final(self).error_count == old(self).error_count + 1,
            final(self).success_count == old(self).success_count,
            final(self).skipped_count == old(self).skipped_count,
            final(self).errors@ == old(self).errors@.push(message),
    {
        self.error_count = self.error_count + 1;
        self.errors.push(message);
    }

    /// A backup transfer counts as done when something was copied or nothing
    /// failed: busy files are expected to be skipped.
    pub fn is_acceptable(&self) -> (r: bool)
        ensures
            r == (self.success_count > 0 || self.error_count == 0),
    {
        self.success_count > 0 || self.error_count == 0
    }
}

/// rsync exit codes below this one report partial transfers, not failures.
pub const RSYNC_FIRST_ERROR_CODE: i32 = 12;

/// The decimal text of a signed number.
pub open spec fn signed_decimal(n: int) -> Seq<char> {
    if n < 0 {
        seq!['-'] + decimal((-n) as nat)
    } else {
        decimal(n as nat)
    }
}

fn append_signed(out: &mut String, n: i32)
    ensures
        final(out)@ == old(out)@ + signed_decimal(n as int),
{
    if n < 0 {
        let ghost start = out@;
        out.append("-");
        proof {
            reveal_strlit("-");
        }
        let m: i64 = -(n as i64);
        append_decimal(out, m as u128);
        assert(out@ =~= start + signed_decimal(n as int));
    } else {
        append_decimal(out, n as u128);
    }
}

/// How an rsync run that ended with `exit_code` (`None`: killed by a
/// signal) is tallied: success on 0; a timeout error on 124; a partial
/// transfer, still a success, below 12; an error otherwise.
pub fn rsync_outcome(exit_code: Option<i32>, stderr: &str) -> (r: TransferResult)
    ensures
        r.skipped_count == 0,
        match exit_code {
            Some(0) => r.success_count == 1 && r.error_count == 0 && r.errors@.len() == 0,
            Some(124) => r.success_count == 0 && r.error_count == 1 && r.errors@.len() == 1
                && r.errors@[0]@ == "Operation timed out"@,
            Some(code) => {
                &&& r.errors@.len() == 1
                &&& r.errors@[0]@ == "Rsync exit code "@ + signed_decimal(code as int) + ": "@
                    + stderr@
                &&& if code < RSYNC_FIRST_ERROR_CODE {
                    r.success_count == 1 && r.error_count == 0
                } else {
                    r.success_count == 0 && r.error_count == 1
                }
            },
            None => r.success_count == 0 && r.error_count == 1 && r.errors@.len() == 1
                && r.errors@[0]@ == "Rsync was terminated by signal"@,
        },
{
    let mut r = TransferResult::new();
    match exit_code {
        Some(0) => {
            r.success_count = 1;
        },
        Some(124) => {
            r.record_error(String::from_str("Operation timed out"));
        },
        Some(code) => {
            let mut m = String::from_str("Rsync exit code ");
            append_signed(&mut m, code);
            m.append(": ");
            m.append(stderr);
            if code < RSYNC_FIRST_ERROR_CODE {
                r.errors.push(m);
                r.success_count = 1;
            } else {
                r.record_error(m);
            }
        },
        None => {
            r.record_error(String::from_str("Rsync was terminated by signal"));
        },
    }
    r
}

/// The text in tar's error output that means some files were skipped.
pub open spec fn tar_partial_text(stderr: Seq<char>) -> bool {
    has_substring(stderr, "Exiting with failure status due to previous errors"@)
}

/// The text of an optional exit code, as `Some(2)` or `None`.
pub open spec fn optional_code_text(code: Option<i32>) -> Seq<char> {
    match code {
        Some(c) => "Some("@ + signed_decimal(c as int) + ")"@,
        None => "None"@,
    }
}

/// How a tar pipe (a packing and an unpacking process) is tallied: success
/// when both succeed; a failed packing is an error; a failed unpacking that
/// only reports earlier errors counts as a success with a skip, any other is
/// an error.
pub fn tar_outcome(
    source_ok: bool,
    source_code: Option<i32>,
    target_ok: bool,
    target_stderr: &str,
) -> (r: TransferResult)
    ensures
        source_ok && target_ok ==> r.success_count == 1 && r.error_count == 0 && r.skipped_count
            == 0 && r.errors@.len() == 0,
        !(source_ok && target_ok) ==> {
            let partial = !target_ok && tar_partial_text(target_stderr@);
            &&& r.success_count == if partial { 1usize } else { 0 }
            &&& r.skipped_count == if partial { 1usize } else { 0 }
            &&& r.error_count == (if source_ok { 0usize } else { 1 }) + (if !target_ok && !partial {
                1usize
            } else {
                0
            })
            &&& !source_ok ==> r.errors@[0]@ == "Tar source failed with exit code: "@
                + optional_code_text(source_code)
            &&& !target_ok && !partial ==> r.errors@.last()@ == "Tar target error: "@
                + target_stderr@
            &&& r.errors@.len() == r.error_count
        },
{
    let mut r = TransferResult::new();
    if source_ok && target_ok {
        r.success_count = 1;
        return r;
    }
    if !source_ok {
        let mut m = String::from_str("Tar source failed with exit code: ");
        match source_code {
            Some(c) => {
                let ghost start = m@;
                m.append("Some(");
                append_signed(&mut m, c);
                m.append(")");
                assert(m@ =~= start + optional_code_text(source_code));
            },
            None => {
                m.append("None");
            },
        }
        r.record_error(m);
    }
    if !target_ok {
        if contains_text(target_stderr, "Exiting with failure status due to previous errors") {
            r.skipped_count = r.skipped_count + 1;
            r.success_count = 1;
        } else {
            let mut m = String::from_str("Tar target error: ");
            m.append(target_stderr);
            r.record_error(m);
        }
    }
    r
}

/// The rsync exclusion patterns for the mount points that lie under `source`:
/// each is `/` followed by its components below `source`, in order.
pub open spec fn exclude_patterns(source: Seq<char>, mounts: Seq<Seq<char>>) -> Seq<Seq<char>>
    decreases mounts.len(),
{
    if mounts.len() == 0 {
        Seq::empty()
    } else {
        let rest = exclude_patterns(source, mounts.drop_last());
        match relative_components(mounts.last(), source) {
            Some(rel) => rest.push(rooted(rel)),
            None => rest,
        }
    }
}

/// The exclusion patterns that keep rsync out of the mount points under
/// `source`.
pub fn rsync_exclude_patterns(source: &str, mounted_paths: &Vec<String>) -> (r: Vec<String>)
    ensures
        comp_views(r@) == exclude_patterns(source@, comp_views(mounted_paths@)),
{
    let mut out: Vec<String> = Vec::new();
    let mut i: usize = 0;
    while i < mounted_paths.len()
        invariant
            i <= mounted_paths@.len(),
            comp_views(out@) == exclude_patterns(
                source@,
                comp_views(mounted_paths@.subrange(0, i as int)),
            ),
        decreases mounted_paths@.len() - i,
    {
        let ghost prev = mounted_paths@.subrange(0, i as int);
        let ghost next = mounted_paths@.subrange(0, i + 1);
        assert(comp_views(next).drop_last() =~= comp_views(prev));
        assert(comp_views(next).last() == mounted_paths@[i as int]@);
        match rooted_relative(mounted_paths[i].as_str(), source) {
            Some(p) => {
                let ghost before = out@;
                out.push(p);
                assert(comp_views(out@) =~= comp_views(before).push(p@));
            },
            None => {},
        }
        i += 1;
    }
    assert(mounted_paths@.subrange(0, mounted_paths@.len() as int) =~= mounted_paths@);
    out
}

/// The kind of a directory entry met during a recursive copy; `Unreadable`
/// when its metadata could not be read.
#[derive(Debug, Clone, Copy, PartialEq, Eq, Structural)]
pub enum EntryKind {
    Directory,
    File,
    Symlink,
    Other,
    Unreadable,
}

/// What the mount-aware copy does with one entry.
#[derive(Debug, Clone, Copy, PartialEq, Eq, Structural)]
pub enum EntryAction {
    /// Its destination is mounted: count it skipped, copy nothing.
    SkipMounted,
    /// Create the directory at the destination and copy its contents.
    Descend,
    /// Copy the file with its permissions.
    CopyFile,
    /// Recreate the link as it is.
    CopySymlink,
    /// A device, pipe or socket: count it skipped.
    SkipSpecial,
    /// Its metadata could not be read: count an error.
    ReportError,
}

/// The action for the entry `entry_path` found under `source_root`. The
/// mount check comes first: nothing whose mapped destination is mounted is
/// ever copied or entered.
pub fn mount_walk_action(
    entry_path: &str,
    source_root: &str,
    mounted_paths: &Vec<String>,
    kind: EntryKind,
) -> (r: EntryAction)
    ensures
        excluded_by_mounts(entry_path@, source_root@, comp_views(mounted_paths@)) ==> r
            == EntryAction::SkipMounted,
        !excluded_by_mounts(entry_path@, source_root@, comp_views(mounted_paths@)) ==> r
            == match kind {
            EntryKind::Directory => EntryAction::Descend,
            EntryKind::File => EntryAction::CopyFile,
            EntryKind::Symlink => EntryAction::CopySymlink,
            EntryKind::Other => EntryAction::SkipSpecial,
            EntryKind::Unreadable => EntryAction::ReportError,
        },
{
    if is_path_excluded(entry_path, source_root, mounted_paths) {
        return EntryAction::SkipMounted;
    }
    match kind {
        EntryKind::Directory => EntryAction::Descend,
        EntryKind::File => EntryAction::CopyFile,
        EntryKind::Symlink => EntryAction::CopySymlink,
        EntryKind::Other => EntryAction::SkipSpecial,
        EntryKind::Unreadable => EntryAction::ReportError,
    }
}

/// Whether a walk that has run `elapsed_millis` has passed a deadline of
/// `timeout_secs` seconds.
pub fn deadline_passed(elapsed_millis: u128, timeout_secs: u64) -> (r: bool)
    ensures
        r == (elapsed_millis > timeout_secs as nat * 1000),
{
    elapsed_millis > (timeout_secs as u128) * 1000
}

} // verus!
