//! The restore engine's decisions: which transfer a file gets, what its
//! outcome is, and the tally of a whole run.
use vstd::prelude::*;
use crate::batch::{passed_ok, BackupState, BatchCleanup, CleanupPhase};
use crate::classify::CopyResult;
use crate::path_map::{
    map_backup_path, mapping_holds, no_traversal, path_error_text, relative_components, rooted,
    same_text, single_component_below,
};

verus! {

/// The outcome of restoring one file. `Cleaned` is a success whose backup
/// copy has also been removed.
#[derive(Debug, Clone, PartialEq, Eq)]
pub enum FileProcessOutcome {
    Success,
    Skipped(String),
    Failed(String),
    Cleaned,
}

/// A file that was left in the backup, and why.
#[derive(Debug, Clone, PartialEq, Eq)]
pub struct SkippedFile {
    pub path: String,
    pub reason: String,
}

/// A file whose restore failed, and why.
#[derive(Debug, Clone, PartialEq, Eq)]
pub struct FailedFile {
    pub path: String,
    pub error: String,
}

/// The tally of one restore run over a backup tree.
#[derive(Debug)]
pub struct DirectRestoreResult {
    pub total_files: usize,
    pub successful_files: usize,
    pub skipped_files: usize,
    pub failed_files: usize,
    pub cleaned_files: usize,
    pub skipped_details: Vec<SkippedFile>,
    pub failed_details: Vec<FailedFile>,
    pub cleaned_details: Vec<String>,
    /// Wall-clock time of the run, in milliseconds.
    pub duration_ms: u128,
}

impl DirectRestoreResult {
    /// Every file counted is successful, skipped or failed, exactly once;
    /// cleaned files are among the successful ones; each skip, failure and
    /// cleaned file has its detail.
    pub open spec fn wf(&self) -> bool {
        &&& self.successful_files + self.skipped_files + self.failed_files == self.total_files
        &&& self.cleaned_files <= self.successful_files
        &&& self.skipped_details@.len() == self.skipped_files
        &&& self.failed_details@.len() == self.failed_files
        &&& self.cleaned_details@.len() == self.cleaned_files
    }

    /// An empty tally.
    pub fn new() -> (r: Self)
        ensures
            r.wf(),
            r.total_files == 0,
            r.cleaned_files == 0,
            r.skipped_details@.len() == 0,
            r.failed_details@.len() == 0,
            r.cleaned_details@.len() == 0,
    {
        DirectRestoreResult {
            total_files: 0,
            successful_files: 0,
            skipped_files: 0,
            failed_files: 0,
            cleaned_files: 0,
            skipped_details: Vec::new(),
            failed_details: Vec::new(),
            cleaned_details: Vec::new(),
            duration_ms: 0,
        }
    }

    /// Counts one file with its outcome.
    pub fn record_outcome(&mut self, path: &str, outcome: FileProcessOutcome)
        requires
            old(self).wf(),
            old(self).total_files < usize::MAX,
        ensures
            final(self).wf(),
            final(self).total_files == old(self).total_files + 1,
            final(self).duration_ms == old(self).duration_ms,
            match outcome {
                FileProcessOutcome::Success => {
                    &&& final(self).successful_files == old(self).successful_files + 1
                    &&& final(self).skipped_files == old(self).skipped_files
                    &&& final(self).failed_files == old(self).failed_files
                    &&& final(self).cleaned_files == old(self).cleaned_files
                    &&& final(self).cleaned_details@ == old(self).cleaned_details@
                },
                FileProcessOutcome::Cleaned => {
                    &&& final(self).successful_files == old(self).successful_files + 1
                    &&& final(self).skipped_files == old(self).skipped_files
                    &&& final(self).failed_files == old(self).failed_files
                    &&& final(self).cleaned_files == old(self).cleaned_files + 1
                    &&& final(self).cleaned_details@.len() == old(self).cleaned_details@.len() + 1
                    &&& final(self).cleaned_details@.last()@ == path@
                },
                FileProcessOutcome::Skipped(reason) => {
                    &&& final(self).successful_files == old(self).successful_files
                    &&& final(self).skipped_files == old(self).skipped_files + 1
                    &&& final(self).failed_files == old(self).failed_files
                    &&& final(self).cleaned_files == old(self).cleaned_files
                    &&& final(self).skipped_details@.last().path@ == path@
                    &&& final(self).skipped_details@.last().reason@ == reason@
                },
                FileProcessOutcome::Failed(error) => {
                    &&& final(self).successful_files == old(self).successful_files
                    &&& final(self).skipped_files == old(self).skipped_files
                    &&& final(self).failed_files == old(self).failed_files + 1
                    &&& final(self).cleaned_files == old(self).cleaned_files
                    &&& final(self).failed_details@.last().path@ == path@
                    &&& final(self).failed_details@.last().error@ == error@
                },
            },
    {
        self.total_files = self.total_files + 1;
        match outcome {
            FileProcessOutcome::Success => {
                self.successful_files = self.successful_files + 1;
            },
            FileProcessOutcome::Cleaned => {
                self.successful_files = self.successful_files + 1;
                self.cleaned_files = self.cleaned_files + 1;
                self.cleaned_details.push(String::from_str(path));
            },
            FileProcessOutcome::Skipped(reason) => {
                self.skipped_files = self.skipped_files + 1;
                self.skipped_details.push(SkippedFile { path: String::from_str(path), reason });
            },
            FileProcessOutcome::Failed(error) => {
                self.failed_files = self.failed_files + 1;
                self.failed_details.push(FailedFile { path: String::from_str(path), error });
            },
        }
    }

    /// Counts files with their outcomes, in order: `paths[i]` had
    /// `outcomes[i]`. The counts grow by exactly `counts_of(outcomes)`.
    pub fn record_all(&mut self, paths: &Vec<String>, outcomes: Vec<FileProcessOutcome>)
        requires
            old(self).wf(),
            paths@.len() == outcomes@.len(),
            old(self).total_files + outcomes@.len() <= usize::MAX,
        ensures
            final(self).wf(),
            ({
                let (t, s, k, f, c) = counts_of(outcomes@);
                &&& final(self).total_files == old(self).total_files + t
                &&& final(self).successful_files == old(self).successful_files + s
                &&& final(self).skipped_files == old(self).skipped_files + k
                &&& final(self).failed_files == old(self).failed_files + f
                &&& final(self).cleaned_files == old(self).cleaned_files + c
            }),
    {
        let ghost all = outcomes@;
        let ghost t0 = self.total_files as nat;
        let ghost s0 = self.successful_files as nat;
        let ghost k0 = self.skipped_files as nat;
        let ghost f0 = self.failed_files as nat;
        let ghost c0 = self.cleaned_files as nat;
        let mut rest = outcomes;
        let mut i: usize = 0;
        while rest.len() > 0
            invariant
                self.wf(),
                i <= all.len(),
                paths@.len() == all.len(),
                rest@ == all.subrange(i as int, all.len() as int),
                t0 + all.len() <= usize::MAX,
                self.total_files == t0 + counts_of(all.subrange(0, i as int)).0,
                self.successful_files == s0 + counts_of(all.subrange(0, i as int)).1,
                self.skipped_files == k0 + counts_of(all.subrange(0, i as int)).2,
                self.failed_files == f0 + counts_of(all.subrange(0, i as int)).3,
                self.cleaned_files == c0 + counts_of(all.subrange(0, i as int)).4,
            decreases rest@.len(),
        {
            proof {
                law_counts_balance(all.subrange(0, i as int));
                assert(all.subrange(0, i + 1).drop_last() =~= all.subrange(0, i as int));
                assert(all.subrange(0, i + 1).last() == rest@[0]);
            }
            let o = rest.remove(0);
            self.record_outcome(paths[i].as_str(), o);
            i = i + 1;
            assert(rest@ =~= all.subrange(i as int, all.len() as int));
        }
        assert(all.subrange(0, i as int) =~= all);
    }

    /// Counts an entry that is neither a directory, a regular file nor a
    /// link (a device, pipe or socket): it is skipped, never attempted.
    pub fn record_special_entry(&mut self, path: &str)
        requires
            old(self).wf(),
            old(self).total_files < usize::MAX,
        ensures
            final(self).wf(),
            final(self).total_files == old(self).total_files + 1,
            final(self).skipped_files == old(self).skipped_files + 1,
            final(self).successful_files == old(self).successful_files,
            final(self).failed_files == old(self).failed_files,
            final(self).cleaned_files == old(self).cleaned_files,
            final(self).skipped_details@.last().path@ == path@,
            final(self).skipped_details@.last().reason@
                == "Special file type (not regular file or symlink)"@,
    {
        let reason = String::from_str("Special file type (not regular file or symlink)");
        self.total_files = self.total_files + 1;
        self.skipped_files = self.skipped_files + 1;
        self.skipped_details.push(SkippedFile { path: String::from_str(path), reason });
    }

    /// Counts the files moved with their whole directory, given by their
    /// paths in the backup: each is restored and gone from the backup.
    pub fn record_bulk_move(&mut self, paths: Vec<String>)
        requires
            old(self).wf(),
            old(self).total_files + paths@.len() <= usize::MAX,
        ensures
            final(self).wf(),
            final(self).total_files == old(self).total_files + paths@.len(),
            final(self).successful_files == old(self).successful_files + paths@.len(),
            final(self).cleaned_files == old(self).cleaned_files + paths@.len(),
            final(self).skipped_files == old(self).skipped_files,
            final(self).failed_files == old(self).failed_files,
            final(self).cleaned_details@ == old(self).cleaned_details@ + paths@,
    {
        let count = paths.len();
        let mut paths = paths;
        self.total_files = self.total_files + count;
        self.successful_files = self.successful_files + count;
        self.cleaned_files = self.cleaned_files + count;
        self.cleaned_details.append(&mut paths);
    }

    /// A run fails as a whole only when nothing succeeded and something failed.
    pub fn is_total_failure(&self) -> (r: bool)
        ensures
            r == (self.failed_files > 0 && self.successful_files == 0),
    {
        self.failed_files > 0 && self.successful_files == 0
    }
}

/// The counts `(total, successful, skipped, failed, cleaned)` that recording
/// `outcomes` one by one adds to a tally, as `record_outcome` states them.
pub open spec fn counts_of(outcomes: Seq<FileProcessOutcome>) -> (nat, nat, nat, nat, nat)
    decreases outcomes.len(),
{
    if outcomes.len() == 0 {
        (0, 0, 0, 0, 0)
    } else {
        let (t, s, k, f, c) = counts_of(outcomes.drop_last());
        match outcomes.last() {
            FileProcessOutcome::Success => (t + 1, s + 1, k, f, c),
            FileProcessOutcome::Cleaned => (t + 1, s + 1, k, f, c + 1),
            FileProcessOutcome::Skipped(_) => (t + 1, s, k + 1, f, c),
            FileProcessOutcome::Failed(_) => (t + 1, s, k, f + 1, c),
        }
    }
}

/// Law: whatever outcomes a run records, every file is counted once,
/// successes, skips and failures add up to the total, and the cleaned files
/// are among the successes.
pub proof fn law_counts_balance(outcomes: Seq<FileProcessOutcome>)
    ensures
        ({
            let (t, s, k, f, c) = counts_of(outcomes);
            &&& t == outcomes.len()
            &&& s + k + f == t
            &&& c <= s
        }),
    decreases outcomes.len(),
{
    if outcomes.len() > 0 {
        law_counts_balance(outcomes.drop_last());
    }
}

/// The paths among `paths` whose flag in `still_exists` is set, in order.
pub open spec fn survivors(paths: Seq<String>, still_exists: Seq<bool>) -> Seq<Seq<char>>
    decreases paths.len(),
{
    if paths.len() == 0 {
        Seq::empty()
    } else {
        let rest = survivors(paths.drop_last(), still_exists);
        if still_exists[paths.len() - 1] {
            rest.push(paths.last()@)
        } else {
            rest
        }
    }
}

/// The sanity check after a run: every path recorded as cleaned must be gone.
/// `still_exists[i]` tells whether `cleaned[i]` is still on disk; the paths
/// that are make the error.
pub fn validate_cleanup_operations(cleaned: &Vec<String>, still_exists: &Vec<bool>) -> (r: Result<
    (),
    Vec<String>,
>)
    requires
        cleaned@.len() == still_exists@.len(),
    ensures
        r is Ok <==> survivors(cleaned@, still_exists@).len() == 0,
        r matches Err(v) ==> v@.map_values(|s: String| s@) == survivors(cleaned@, still_exists@),
{
    let mut left: Vec<String> = Vec::new();
    let mut i: usize = 0;
    while i < cleaned.len()
        invariant
            i <= cleaned@.len(),
            cleaned@.len() == still_exists@.len(),
            left@.map_values(|s: String| s@) == survivors(cleaned@.subrange(0, i as int), still_exists@),
        decreases cleaned@.len() - i,
    {
        let ghost before = left@;
        assert(cleaned@.subrange(0, i + 1).drop_last() =~= cleaned@.subrange(0, i as int));
        if still_exists[i] {
            left.push(cleaned[i].clone());
            assert(left@.map_values(|s: String| s@) =~= before.map_values(|s: String| s@).push(
                cleaned@[i as int]@,
            ));
        }
        i += 1;
    }
    assert(cleaned@.subrange(0, cleaned@.len() as int) =~= cleaned@);
    if left.len() == 0 {
        Ok(())
    } else {
        Err(left)
    }
}

/// The next thing to do for one file of the backup.
#[derive(Debug, Clone, PartialEq, Eq)]
pub enum FileStep {
    /// Move the backup file onto this target, retrying transient skips.
    Move(String),
    /// Copy the backup file onto this target, retrying transient skips.
    Copy(String),
    /// Remove the backup copy, as a batch of one against this target: it is
    /// deleted only if the pair passes its check right before.
    Clean(String),
    /// The file is done.
    Done(FileProcessOutcome),
}

/// The directories directly under the backup root that may be moved whole.
pub open spec fn bulk_move_name(n: Seq<char>) -> bool {
    n == "usr"@ || n == "home"@ || n == "opt"@ || n == "var"@ || n == "etc"@ || n == "root"@
}

/// Whether `name` is one of the conventional top-level directories.
pub fn is_bulk_move_name(name: &str) -> (r: bool)
    ensures
        r == bulk_move_name(name@),
{
    same_text(name, "usr") || same_text(name, "home") || same_text(name, "opt") || same_text(
        name,
        "var",
    ) || same_text(name, "etc") || same_text(name, "root")
}

/// Restores files from a backup tree onto the container root.
#[derive(Debug)]
pub struct DirectRestoreEngine {
    pub dry_run: bool,
    pub timeout: u64,
    pub max_retries: u32,
    /// The wait between attempts, in milliseconds.
    pub retry_delay_ms: u64,
    /// Try an atomic move before falling back to a copy.
    pub prefer_move: bool,
    /// Move the conventional top-level directories whole when possible.
    pub bulk_move: bool,
}

impl DirectRestoreEngine {
    /// An engine that copies, with three retries half a second apart.
    pub fn new(dry_run: bool, timeout: u64) -> (r: Self)
        ensures
            r.dry_run == dry_run,
            r.timeout == timeout,
            r.max_retries == 3,
            r.retry_delay_ms == 500,
            !r.prefer_move,
            !r.bulk_move,
    {
        DirectRestoreEngine {
            dry_run,
            timeout,
            max_retries: 3,
            retry_delay_ms: 500,
            prefer_move: false,
            bulk_move: false,
        }
    }

    /// An engine that moves first, falls back to a copy, and moves the
    /// conventional top-level directories whole.
    pub fn new_move_first(dry_run: bool, timeout: u64) -> (r: Self)
        ensures
            r.dry_run == dry_run,
            r.timeout == timeout,
            r.max_retries == 3,
            r.retry_delay_ms == 500,
            r.prefer_move,
            r.bulk_move,
    {
        DirectRestoreEngine {
            dry_run,
            timeout,
            max_retries: 3,
            retry_delay_ms: 500,
            prefer_move: true,
            bulk_move: true,
        }
    }

    /// The same engine with another retry budget and delay.
    pub fn with_retry_config(self, max_retries: u32, retry_delay_ms: u64) -> (r: Self)
        ensures
            r.max_retries == max_retries,
            r.retry_delay_ms == retry_delay_ms,
            r.dry_run == self.dry_run,
            r.timeout == self.timeout,
            r.prefer_move == self.prefer_move,
            r.bulk_move == self.bulk_move,
    {
        DirectRestoreEngine { max_retries, retry_delay_ms, ..self }
    }

    /// Maps a backup file onto its container path (see `map_backup_path`).
    pub fn map_backup_to_container_path(&self, backup_file_path: &str, backup_root: &str) -> (r:
        Result<String, crate::path_map::PathError>)
        ensures
            mapping_holds(backup_file_path@, backup_root@, r),
    {
        map_backup_path(backup_file_path, backup_root)
    }

    /// The first step for a regular file or link found in the backup tree:
    /// a failed mapping ends it; otherwise it is moved or copied to its target.
    pub fn first_step(&self, backup_file: &str, backup_root: &str) -> (r: FileStep)
        ensures
            match relative_components(backup_file@, backup_root@) {
                Some(rel) if no_traversal(rel) => if self.prefer_move {
                    r matches FileStep::Move(t) && t@ == rooted(rel)
                } else {
                    r matches FileStep::Copy(t) && t@ == rooted(rel)
                },
                _ => r matches FileStep::Done(FileProcessOutcome::Failed(m)) && exists|e|
                    mapping_holds(backup_file@, backup_root@, Err(e)) && m@ == "Path mapping failed: "@
                        + path_error_text(e),
            },
    {
        match map_backup_path(backup_file, backup_root) {
            Ok(target) => {
                if self.prefer_move {
                    FileStep::Move(target)
                } else {
                    FileStep::Copy(target)
                }
            },
            Err(e) => {
                let mut m = String::from_str("Path mapping failed: ");
                let d = e.message();
                m.append(d.as_str());
                FileStep::Done(FileProcessOutcome::Failed(m))
            },
        }
    }

    /// The step after a move onto `target`: a moved file is restored and gone
    /// from the backup (in a dry run, only restored); a skip ends the file; a
    /// failed move falls back to a copy.
    pub fn after_move(&self, target: String, result: CopyResult) -> (r: FileStep)
        ensures
            match result {
                CopyResult::Success => r == if self.dry_run {
                    FileStep::Done(FileProcessOutcome::Success)
                } else {
                    FileStep::Done(FileProcessOutcome::Cleaned)
                },
                CopyResult::Skipped(reason) => r == FileStep::Done(FileProcessOutcome::Skipped(reason)),
                CopyResult::Failed(_) => r == FileStep::Copy(target),
            },
    {
        match result {
            CopyResult::Success => {
                if self.dry_run {
                    FileStep::Done(FileProcessOutcome::Success)
                } else {
                    FileStep::Done(FileProcessOutcome::Cleaned)
                }
            },
            CopyResult::Skipped(reason) => FileStep::Done(FileProcessOutcome::Skipped(reason)),
            CopyResult::Failed(_) => FileStep::Copy(target),
        }
    }

    /// The step after a copy onto `target`: a copied file goes on to cleanup
    /// (in a dry run it is done); a skip or a failure ends the file.
    pub fn after_copy(&self, target: String, result: CopyResult) -> (r: FileStep)
        ensures
            match result {
                CopyResult::Success => r == if self.dry_run {
                    FileStep::Done(FileProcessOutcome::Success)
                } else {
                    FileStep::Clean(target)
                },
                CopyResult::Skipped(reason) => r == FileStep::Done(FileProcessOutcome::Skipped(reason)),
                CopyResult::Failed(error) => r == FileStep::Done(FileProcessOutcome::Failed(error)),
            },
    {
        match result {
            CopyResult::Success => {
                if self.dry_run {
                    FileStep::Done(FileProcessOutcome::Success)
                } else {
                    FileStep::Clean(target)
                }
            },
            CopyResult::Skipped(reason) => FileStep::Done(FileProcessOutcome::Skipped(reason)),
            CopyResult::Failed(error) => FileStep::Done(FileProcessOutcome::Failed(error)),
        }
    }

    /// The outcome after the cleanup step, which removes the backup copy as
    /// a finished batch of one: the file is restored either way, and cleaned
    /// only when that batch deleted the backup, which it did only after the
    /// pair passed its check right before (target present and openable, sizes
    /// equal).
    pub fn after_clean(&self, cleanup: &BatchCleanup) -> (r: FileProcessOutcome)
        requires
            cleanup.wf(),
            cleanup.phase() == CleanupPhase::Finished,
            cleanup.len() == 1,
        ensures
            r == if cleanup.states()[0] == BackupState::Removed {
                FileProcessOutcome::Cleaned
            } else {
                FileProcessOutcome::Success
            },
            r == FileProcessOutcome::Cleaned ==> {
                let f = cleanup.passed_check(0)->0;
                &&& passed_ok(cleanup.passed_check(0))
                &&& f.1.exists && f.1.openable && f.0.size == f.1.size
            },
    {
        proof {
            cleanup.law_removed_only_after_passing_check();
        }
        if cleanup.fully_cleaned() {
            FileProcessOutcome::Cleaned
        } else {
            FileProcessOutcome::Success
        }
    }

    /// Whether a directory is moved whole: never in a dry run, only when the
    /// engine allows it, and only for a conventional top-level directory that
    /// is a direct child of the backup root.
    pub fn should_use_bulk_move(&self, current_dir: &str, backup_root: &str) -> (r: bool)
        ensures
            r == (!self.dry_run && self.bulk_move && match relative_components(
                current_dir@,
                backup_root@,
            ) {
                Some(rel) => rel.len() == 1 && bulk_move_name(rel[0]),
                None => false,
            }),
    {
        if self.dry_run || !self.bulk_move {
            return false;
        }
        match single_component_below(current_dir, backup_root) {
            Some(name) => is_bulk_move_name(name.as_str()),
            None => false,
        }
    }
}

} // verus!
