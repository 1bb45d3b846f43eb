//! Batch cleanup with rollback: backup copies are deleted one at a time, each
//! after a fresh check and behind a temporary copy, and on the first failure
//! every deletion of the batch is undone.
//!
//! The batch is a state machine. `next_action` says what to do; the caller
//! does it on disk and reports back through the matching `record_*` method.
use vstd::prelude::*;
use crate::text::{append_decimal, decimal};
use crate::cleanup::{
    restoration_verdict, validate_file_restoration_safety, CleanupError, FileFacts,
};

verus! {

/// What became of one backup file in the batch.
#[derive(Debug, Clone, Copy, PartialEq, Eq, Structural)]
pub enum BackupState {
    /// Never deleted.
    Untouched,
    /// Deleted, and not (yet) restored.
    Removed,
    /// Deleted, then restored from its temporary copy.
    Restored,
    /// Deleted, and its restore failed: the temporary copy stays on disk.
    RestoreFailed,
}

/// Where the batch stands.
#[derive(Debug, Clone, Copy, PartialEq, Eq, Structural)]
pub enum CleanupPhase {
    /// Making temporary copies.
    Copying,
    /// About to check the current pair again.
    Checking,
    /// The current pair passed its check: about to delete its backup.
    Removing,
    /// A step failed: restoring what was deleted.
    RollingBack,
    /// Removing temporary copies that are no longer needed.
    Discarding,
    Finished,
}

/// What the caller does next.
#[derive(Debug, Clone, Copy, PartialEq, Eq, Structural)]
pub enum CleanupAction {
    /// Copy backup `i` to a temporary copy beside it; report its path.
    CopyAside(usize),
    /// Gather the facts of pair `i` again.
    Recheck(usize),
    /// Delete backup `i`.
    Remove(usize),
    /// Copy the temporary copy of backup `i` back and delete the temporary copy.
    RestoreFromCopy(usize),
    /// Delete the temporary copies `from..to`, best effort: those of files
    /// that were never deleted, or all of them once every deletion went through.
    DiscardCopies { from: usize, to: usize },
    /// Nothing is left to do: take the result.
    Finish,
}

/// What was done with one pair.
#[derive(Debug, Clone, PartialEq, Eq)]
pub struct CleanupDetail {
    pub backup_file: String,
    pub target_file: String,
    pub status: String,
    pub message: String,
}

/// The tally of a batch.
#[derive(Debug)]
pub struct BatchCleanupResult {
    pub total_files: usize,
    pub successful_cleanups: usize,
    pub failed_cleanups: usize,
    pub rollback_operations: usize,
    pub cleanup_details: Vec<CleanupDetail>,
}

/// Why a batch gave up without a tally.
#[derive(Debug, Clone, PartialEq, Eq)]
pub enum BatchError {
    /// The temporary copy of backup `index` could not be made; the copies
    /// made before it were discarded and nothing was deleted.
    TempCopyFailed { index: usize, message: String },
    /// A step failed and some deleted backup files could not be put back:
    /// their temporary copies, listed here, were kept for manual recovery.
    RollbackFailed { kept_copies: Vec<String> },
}

/// The number of `Restored` states among the first `k`.
pub open spec fn restored_count(states: Seq<BackupState>, k: int) -> nat
    decreases k,
{
    if k <= 0 {
        0
    } else {
        restored_count(states, k - 1) + if states[k - 1] == BackupState::Restored {
            1nat
        } else {
            0
        }
    }
}

proof fn lemma_restored_count_frame(a: Seq<BackupState>, b: Seq<BackupState>, k: int)
    requires
        0 <= k <= a.len(),
        k <= b.len(),
        forall|j: int| 0 <= j < k ==> a[j] == b[j],
    ensures
        restored_count(a, k) == restored_count(b, k),
    decreases k,
{
    if k > 0 {
        lemma_restored_count_frame(a, b, k - 1);
    }
}

proof fn lemma_restored_count_bounded(states: Seq<BackupState>, k: int)
    requires
        0 <= k,
    ensures
        restored_count(states, k) <= k,
    decreases k,
{
    if k > 0 {
        lemma_restored_count_bounded(states, k - 1);
    }
}

proof fn lemma_restored_count_all(states: Seq<BackupState>, k: int)
    requires
        0 <= k <= states.len(),
        forall|j: int| 0 <= j < k ==> states[j] == BackupState::Restored,
    ensures
        restored_count(states, k) == k,
    decreases k,
{
    if k > 0 {
        lemma_restored_count_all(states, k - 1);
    }
}

/// The facts of a pair that passed its check.
pub open spec fn passed_ok(p: Option<(FileFacts, FileFacts)>) -> bool {
    p matches Some(f) && restoration_verdict(f.0, f.1) is Ok
}

/// A batch cleanup in progress.
pub struct BatchCleanup {
    backup_files: Vec<String>,
    target_files: Vec<String>,
    temp_copies: Vec<String>,
    phase: CleanupPhase,
    cursor: usize,
    copy_failure: Option<String>,
    result: BatchCleanupResult,
    states: Ghost<Seq<BackupState>>,
    kept_copies: Vec<String>,
    passed: Ghost<Seq<Option<(FileFacts, FileFacts)>>>,
}

impl BatchCleanup {
    /// The backup files, in input order.
    pub closed spec fn backups(&self) -> Seq<String> {
        self.backup_files@
    }

    /// The target files, in input order.
    pub closed spec fn targets(&self) -> Seq<String> {
        self.target_files@
    }

    /// The temporary copies made so far.
    pub closed spec fn temps(&self) -> Seq<String> {
        self.temp_copies@
    }

    /// The facts with which pair `j` last passed its check, if it did.
    pub closed spec fn passed_check(&self, j: int) -> Option<(FileFacts, FileFacts)> {
        self.passed@[j]
    }

    /// The temporary copies kept because their restore failed.
    pub closed spec fn kept(&self) -> Seq<String> {
        self.kept_copies@
    }

    pub closed spec fn phase(&self) -> CleanupPhase {
        self.phase
    }

    pub closed spec fn cursor(&self) -> int {
        self.cursor as int
    }

    /// What became of each backup file so far.
    pub closed spec fn states(&self) -> Seq<BackupState> {
        self.states@
    }

    pub closed spec fn len(&self) -> int {
        self.backup_files@.len() as int
    }

    pub closed spec fn successful(&self) -> int {
        self.result.successful_cleanups as int
    }

    pub closed spec fn failed(&self) -> int {
        self.result.failed_cleanups as int
    }

    pub closed spec fn rollbacks(&self) -> int {
        self.result.rollback_operations as int
    }

    pub closed spec fn copy_failed(&self) -> bool {
        self.copy_failure is Some
    }

    pub closed spec fn copies_made(&self) -> int {
        self.temp_copies@.len() as int
    }

    /// The batch's invariant.
    pub closed spec fn wf(&self) -> bool {
        let n = self.backup_files@.len() as int;
        let s = self.result.successful_cleanups as int;
        let c = self.cursor as int;
        let st = self.states@;
        &&& self.target_files@.len() == n
        &&& self.result.total_files == n
        &&& st.len() == n
        &&& self.temp_copies@.len() <= n
        &&& self.result.cleanup_details@.len() == s + self.result.failed_cleanups
        &&& self.passed@.len() == n
        &&& forall|j: int|
            0 <= j < n && st[j] != BackupState::Untouched ==> passed_ok(#[trigger] self.passed@[j])
        &&& self.phase == CleanupPhase::Removing ==> passed_ok(self.passed@[c])
        &&& self.phase != CleanupPhase::RollingBack && !(self.copy_failure is None
            && self.result.failed_cleanups == 1) ==> self.kept_copies@.len() == 0
        &&& match self.phase {
            CleanupPhase::Copying => {
                &&& c == self.temp_copies@.len() && c < n
                &&& s == 0 && self.result.failed_cleanups == 0
                &&& self.result.rollback_operations == 0
                &&& self.copy_failure is None
                &&& forall|j: int| 0 <= j < n ==> st[j] == BackupState::Untouched
            },
            CleanupPhase::Checking | CleanupPhase::Removing => {
                &&& self.temp_copies@.len() == n && c < n && s == c
                &&& self.result.failed_cleanups == 0 && self.result.rollback_operations == 0
                &&& self.copy_failure is None
                &&& forall|j: int| 0 <= j < c ==> st[j] == BackupState::Removed
                &&& forall|j: int| c <= j < n ==> st[j] == BackupState::Untouched
            },
            CleanupPhase::RollingBack => c < s && self.rolling_back_wf(c),
            CleanupPhase::Discarding | CleanupPhase::Finished => {
                ||| (self.copy_failure is Some && s == 0 && self.result.failed_cleanups == 0
                    && self.result.rollback_operations == 0 && self.temp_copies@.len() < n
                    && forall|j: int| 0 <= j < n ==> st[j] == BackupState::Untouched)
                ||| (self.copy_failure is None && self.result.failed_cleanups == 0 && s == n
                    && self.temp_copies@.len() == n && self.result.rollback_operations == 0
                    && forall|j: int| 0 <= j < n ==> st[j] == BackupState::Removed)
                ||| (self.copy_failure is None && c == s && self.rolling_back_wf(c))
            },
        }
    }

    /// While rolling back at cursor `c`: the first `c` deleted files are
    /// dealt with, those up to the failed pair are still deleted, and the
    /// rest were never touched.
    pub closed spec fn rolling_back_wf(&self, c: int) -> bool {
        let n = self.backup_files@.len() as int;
        let s = self.result.successful_cleanups as int;
        let st = self.states@;
        &&& self.temp_copies@.len() == n && 0 <= c <= s && s < n
        &&& self.result.failed_cleanups == 1
        &&& self.copy_failure is None
        &&& self.result.rollback_operations == restored_count(st, c)
        &&& self.result.rollback_operations + self.kept_copies@.len() == c
        &&& forall|j: int|
            0 <= j < c ==> st[j] == BackupState::Restored || st[j] == BackupState::RestoreFailed
        &&& forall|j: int| c <= j < s ==> st[j] == BackupState::Removed
        &&& forall|j: int| s <= j < n ==> st[j] == BackupState::Untouched
    }

    /// The action the batch's state calls for.
    pub open spec fn action_spec(&self) -> CleanupAction {
        match self.phase() {
            CleanupPhase::Copying => CleanupAction::CopyAside(self.cursor() as usize),
            CleanupPhase::Checking => CleanupAction::Recheck(self.cursor() as usize),
            CleanupPhase::Removing => CleanupAction::Remove(self.cursor() as usize),
            CleanupPhase::RollingBack => CleanupAction::RestoreFromCopy(self.cursor() as usize),
            CleanupPhase::Discarding => if self.copy_failed() || self.failed() == 0 {
                CleanupAction::DiscardCopies { from: 0, to: self.copies_made() as usize }
            } else {
                CleanupAction::DiscardCopies {
                    from: self.successful() as usize,
                    to: self.copies_made() as usize,
                }
            },
            CleanupPhase::Finished => CleanupAction::Finish,
        }
    }

    /// Starts a batch over the pairs `(backup_files[i], target_files[i])`
    /// after a pre-flight in which `preflight_failures` pairs failed. Any
    /// pre-flight failure aborts the batch before anything is touched.
    pub fn new(backup_files: Vec<String>, target_files: Vec<String>, preflight_failures: usize) -> (r:
        Result<Self, CleanupError>)
        ensures
            backup_files@.len() != target_files@.len() ==> r == Err::<Self, CleanupError>(
                CleanupError::LengthMismatch {
                    backups: backup_files@.len() as usize,
                    targets: target_files@.len() as usize,
                },
            ),
            backup_files@.len() == target_files@.len() && preflight_failures > 0 ==> r == Err::<
                Self,
                CleanupError,
            >(CleanupError::PreflightFailed(preflight_failures)),
            backup_files@.len() == target_files@.len() && preflight_failures == 0 ==> (r matches Ok(
                b,
            ) && {
                &&& b.wf()
                &&& b.len() == backup_files@.len()
                &&& forall|j: int| 0 <= j < b.len() ==> b.states()[j] == BackupState::Untouched
                &&& if b.len() == 0 {
                    b.phase() == CleanupPhase::Discarding
                } else {
                    b.phase() == CleanupPhase::Copying && b.cursor() == 0
                }
            }),
    {
        if backup_files.len() != target_files.len() {
            return Err(
                CleanupError::LengthMismatch {
                    backups: backup_files.len(),
                    targets: target_files.len(),
                },
            );
        }
        if preflight_failures > 0 {
            return Err(CleanupError::PreflightFailed(preflight_failures));
        }
        let n = backup_files.len();
        let phase = if n == 0 {
            CleanupPhase::Discarding
        } else {
            CleanupPhase::Copying
        };
        BatchCleanup {
            backup_files,
            target_files,
            temp_copies: Vec::new(),
            phase,
            cursor: 0,
            copy_failure: None,
            result: BatchCleanupResult {
                total_files: n,
                successful_cleanups: 0,
                failed_cleanups: 0,
                rollback_operations: 0,
                cleanup_details: Vec::new(),
            },
            states: Ghost(Seq::new(n as nat, |j: int| BackupState::Untouched)),
            kept_copies: Vec::new(),
            passed: Ghost(Seq::new(n as nat, |j: int| None)),
        }.into_ok()
    }

    fn into_ok(self) -> (r: Result<Self, CleanupError>)
        ensures
            r == Ok::<Self, CleanupError>(self),
    {
        Ok(self)
    }

    /// The action the batch calls for now.
    pub fn next_action(&self) -> (r: CleanupAction)
        requires
            self.wf(),
        ensures
            r == self.action_spec(),
    {
        match self.phase {
            CleanupPhase::Copying => CleanupAction::CopyAside(self.cursor),
            CleanupPhase::Checking => CleanupAction::Recheck(self.cursor),
            CleanupPhase::Removing => CleanupAction::Remove(self.cursor),
            CleanupPhase::RollingBack => CleanupAction::RestoreFromCopy(self.cursor),
            CleanupPhase::Discarding => {
                if self.copy_failure.is_some() || self.result.failed_cleanups == 0 {
                    CleanupAction::DiscardCopies { from: 0, to: self.temp_copies.len() }
                } else {
                    CleanupAction::DiscardCopies {
                        from: self.result.successful_cleanups,
                        to: self.temp_copies.len(),
                    }
                }
            },
            CleanupPhase::Finished => CleanupAction::Finish,
        }
    }

    /// The backup path of pair `i`.
    pub fn backup_file(&self, i: usize) -> (r: &String)
        requires
            0 <= i < self.len(),
        ensures
            r == self.backups()[i as int],
    {
        &self.backup_files[i]
    }

    /// The target path of pair `i`.
    pub fn target_file(&self, i: usize) -> (r: &String)
        requires
            self.wf(),
            0 <= i < self.len(),
        ensures
            r == self.targets()[i as int],
    {
        &self.target_files[i]
    }

    /// The temporary copy of backup `i`.
    pub fn temp_copy(&self, i: usize) -> (r: &String)
        requires
            0 <= i < self.copies_made(),
        ensures
            r == self.temps()[i as int],
    {
        &self.temp_copies[i]
    }

    /// Reports the temporary copy asked for by `CopyAside`: its path, or why
    /// it could not be made. A failure sends the batch to discard the copies
    /// made so far.
    pub fn record_copy(&mut self, copy: Result<String, String>)
        requires
            old(self).wf(),
            old(self).phase() == CleanupPhase::Copying,
        ensures
            final(self).wf(),
            final(self).states() == old(self).states(),
            final(self).len() == old(self).len(),
            match copy {
                Ok(_) => if old(self).cursor() + 1 < old(self).len() {
                    final(self).phase() == CleanupPhase::Copying && final(self).cursor()
                        == old(self).cursor() + 1
                } else {
                    final(self).phase() == CleanupPhase::Checking && final(self).cursor() == 0
                },
                Err(_) => final(self).phase() == CleanupPhase::Discarding && final(self).copy_failed()
                    && final(self).copies_made() == old(self).cursor(),
            },
    {
        match copy {
            Ok(path) => {
                self.temp_copies.push(path);
                self.cursor = self.cursor + 1;
                if self.cursor == self.backup_files.len() {
                    self.phase = CleanupPhase::Checking;
                    self.cursor = 0;
                }
            },
            Err(message) => {
                self.copy_failure = Some(message);
                self.phase = CleanupPhase::Discarding;
            },
        }
    }

    /// Reports the facts of pair `cursor` asked for by `Recheck`. The pair
    /// goes on to deletion only when it passes its check; otherwise nothing
    /// more is deleted and the batch rolls back.
    pub fn record_recheck(&mut self, backup: &FileFacts, target: &FileFacts)
        requires
            old(self).wf(),
            old(self).phase() == CleanupPhase::Checking,
        ensures
            final(self).wf(),
            final(self).states() == old(self).states(),
            final(self).len() == old(self).len(),
            restoration_verdict(*backup, *target) is Ok ==> {
                &&& final(self).phase() == CleanupPhase::Removing
                &&& final(self).cursor() == old(self).cursor()
                &&& final(self).passed_check(old(self).cursor()) == Some((*backup, *target))
                &&& final(self).failed() == old(self).failed()
            },
            restoration_verdict(*backup, *target) is Err ==> {
                &&& final(self).phase() == if old(self).successful() == 0 {
                    CleanupPhase::Discarding
                } else {
                    CleanupPhase::RollingBack
                }
                &&& final(self).cursor() == 0
                &&& final(self).failed() == 1
                &&& final(self).successful() == old(self).successful()
            },
    {
        match validate_file_restoration_safety(backup, target) {
            Ok(()) => {
                let ghost c = self.cursor as int;
                self.passed = Ghost(self.passed@.update(c, Some((*backup, *target))));
                self.phase = CleanupPhase::Removing;
                assert forall|j: int|
                    0 <= j < self.backup_files@.len() && self.states@[j] != BackupState::Untouched
                    implies passed_ok(#[trigger] self.passed@[j]) by {
                    if j != c {
                        assert(self.passed@[j] == old(self).passed@[j]);
                    }
                }
            },
            Err(e) => {
                let mut message = String::from_str("Pre-cleanup validation failed: ");
                let text = e.message();
                message.append(text.as_str());
                self.fail_current(String::from_str("validation_failed"), message);
            },
        }
    }

    /// Reports the deletion asked for by `Remove`.
    pub fn record_removal(&mut self, removed: Result<(), String>)
        requires
            old(self).wf(),
            old(self).phase() == CleanupPhase::Removing,
        ensures
            final(self).wf(),
            final(self).len() == old(self).len(),
            match removed {
                Ok(()) => {
                    &&& final(self).states() == old(self).states().update(
                        old(self).cursor(),
                        BackupState::Removed,
                    )
                    &&& final(self).successful() == old(self).successful() + 1
                    &&& final(self).failed() == old(self).failed()
                    &&& final(self).cursor() == old(self).cursor() + 1
                    &&& final(self).phase() == if old(self).cursor() + 1 < old(self).len() {
                        CleanupPhase::Checking
                    } else {
                        CleanupPhase::Discarding
                    }
                },
                Err(_) => {
                    &&& final(self).states() == old(self).states()
                    &&& final(self).failed() == 1
                    &&& final(self).successful() == old(self).successful()
                    &&& final(self).cursor() == 0
                    &&& final(self).phase() == if old(self).successful() == 0 {
                        CleanupPhase::Discarding
                    } else {
                        CleanupPhase::RollingBack
                    }
                },
            },
    {
        let i = self.cursor;
        match removed {
            Ok(()) => {
                let detail = CleanupDetail {
                    backup_file: self.backup_files[i].clone(),
                    target_file: self.target_files[i].clone(),
                    status: String::from_str("success"),
                    message: String::from_str("File successfully cleaned"),
                };
                self.result.cleanup_details.push(detail);
                self.result.successful_cleanups = self.result.successful_cleanups + 1;
                self.states = Ghost(self.states@.update(i as int, BackupState::Removed));
                self.cursor = i + 1;
                if self.cursor == self.backup_files.len() {
                    self.phase = CleanupPhase::Discarding;
                } else {
                    self.phase = CleanupPhase::Checking;
                }
            },
            Err(e) => {
                let mut message = String::from_str("Cleanup failed: ");
                message.append(e.as_str());
                self.fail_current(String::from_str("failed"), message);
            },
        }
    }

    /// Records the failure of pair `cursor` and turns to rolling back.
    fn fail_current(&mut self, status: String, message: String)
        requires
            old(self).wf(),
            old(self).phase() == CleanupPhase::Checking || old(self).phase()
                == CleanupPhase::Removing,
        ensures
            final(self).wf(),
            final(self).states() == old(self).states(),
            final(self).len() == old(self).len(),
            final(self).failed() == 1,
            final(self).successful() == old(self).successful(),
            final(self).cursor() == 0,
            final(self).phase() == if old(self).successful() == 0 {
                CleanupPhase::Discarding
            } else {
                CleanupPhase::RollingBack
            },
    {
        let i = self.cursor;
        let detail = CleanupDetail {
            backup_file: self.backup_files[i].clone(),
            target_file: self.target_files[i].clone(),
            status,
            message,
        };
        self.result.cleanup_details.push(detail);
        self.result.failed_cleanups = 1;
        self.cursor = 0;
        if self.result.successful_cleanups == 0 {
            self.phase = CleanupPhase::Discarding;
        } else {
            self.phase = CleanupPhase::RollingBack;
        }
    }

    /// Reports the restore asked for by `RestoreFromCopy`. A failed restore
    /// is passed over: its temporary copy is left for manual recovery.
    pub fn record_restore(&mut self, restored: bool)
        requires
            old(self).wf(),
            old(self).phase() == CleanupPhase::RollingBack,
        ensures
            final(self).wf(),
            final(self).len() == old(self).len(),
            final(self).states() == old(self).states().update(
                old(self).cursor(),
                if restored {
                    BackupState::Restored
                } else {
                    BackupState::RestoreFailed
                },
            ),
            final(self).cursor() == old(self).cursor() + 1,
            final(self).failed() == old(self).failed(),
            final(self).successful() == old(self).successful(),
            final(self).rollbacks() == old(self).rollbacks() + if restored {
                1int
            } else {
                0
            },
            final(self).phase() == if old(self).cursor() + 1 == old(self).successful() {
                CleanupPhase::Discarding
            } else {
                CleanupPhase::RollingBack
            },
    {
        let i = self.cursor;
        let ghost old_states = self.states@;
        proof {
            lemma_restored_count_bounded(old_states, i as int);
        }
        if restored {
            self.result.rollback_operations = self.result.rollback_operations + 1;
            self.states = Ghost(self.states@.update(i as int, BackupState::Restored));
        } else {
            let kept = self.temp_copies[i].clone();
            self.kept_copies.push(kept);
            self.states = Ghost(self.states@.update(i as int, BackupState::RestoreFailed));
        }
        proof {
            lemma_restored_count_frame(old_states, self.states@, i as int);
            assert(restored_count(self.states@, i + 1) == restored_count(self.states@, i as int)
                + if self.states@[i as int] == BackupState::Restored {
                1nat
            } else {
                0
            });
        }
        self.cursor = i + 1;
        assert(self.rolling_back_wf(i + 1)) by {
            let st = self.states@;
            assert forall|j: int| 0 <= j < i + 1 implies st[j] == BackupState::Restored || st[j]
                == BackupState::RestoreFailed by {
                if j < i {
                    assert(st[j] == old_states[j]);
                }
            }
            assert forall|j: int|
                i + 1 <= j < self.result.successful_cleanups implies st[j]
                == BackupState::Removed by {
                assert(st[j] == old_states[j]);
            }
            assert forall|j: int|
                self.result.successful_cleanups <= j < self.backup_files@.len() implies st[j]
                == BackupState::Untouched by {
                assert(st[j] == old_states[j]);
            }
        }
        assert forall|j: int|
            0 <= j < self.backup_files@.len() && self.states@[j] != BackupState::Untouched
            implies passed_ok(#[trigger] self.passed@[j]) by {
            assert(old_states[j] != BackupState::Untouched);
        }
        if self.cursor == self.result.successful_cleanups {
            self.phase = CleanupPhase::Discarding;
        }
    }

    /// Reports that the copies asked for by `DiscardCopies` were dealt with.
    pub fn record_discarded(&mut self)
        requires
            old(self).wf(),
            old(self).phase() == CleanupPhase::Discarding,
        ensures
            final(self).wf(),
            final(self).len() == old(self).len(),
            final(self).states() == old(self).states(),
            final(self).phase() == CleanupPhase::Finished,
    {
        self.phase = CleanupPhase::Finished;
    }

    /// The outcome of a finished batch: its tally, or the temporary copy that
    /// could not be made.
    pub fn finish(self) -> (r: Result<BatchCleanupResult, BatchError>)
        requires
            self.wf(),
            self.phase() == CleanupPhase::Finished,
        ensures
            self.copy_failed() ==> r matches Err(BatchError::TempCopyFailed { .. }),
            r matches Err(BatchError::RollbackFailed { kept_copies }) ==> {
                &&& kept_copies@ == self.kept()
                &&& kept_copies@.len() > 0
                &&& exists|j: int|
                    0 <= j < self.len() && self.states()[j] == BackupState::RestoreFailed
            },
            !self.copy_failed() && (forall|j: int|
                0 <= j < self.len() ==> self.states()[j] != BackupState::RestoreFailed) ==> r is Ok,
            r matches Ok(t) ==> {
                &&& t.total_files == self.len()
                &&& t.successful_cleanups == self.successful()
                &&& t.failed_cleanups == self.failed()
                &&& t.rollback_operations == self.rollbacks()
                &&& t.failed_cleanups <= 1
                &&& t.successful_cleanups + t.failed_cleanups == t.cleanup_details@.len()
                &&& t.cleanup_details@.len() <= t.total_files
                &&& t.failed_cleanups == 0 ==> t.rollback_operations == 0
                    && t.successful_cleanups == t.total_files
                &&& t.failed_cleanups > 0 ==> t.rollback_operations == t.successful_cleanups
            },
    {
        proof {
            lemma_restored_count_bounded(self.states@, self.cursor as int);
            if self.copy_failure is None && self.result.failed_cleanups == 1 {
                self.lemma_all_restored();
            }
        }
        match self.copy_failure {
            Some(message) => Err(BatchError::TempCopyFailed { index: self.temp_copies.len(), message }),
            None => {
                if self.kept_copies.len() > 0 {
                    Err(BatchError::RollbackFailed { kept_copies: self.kept_copies })
                } else {
                    Ok(self.result)
                }
            },
        }
    }

    /// A finished batch that rolled back with no failed restore restored
    /// every deleted file and kept no temporary copy.
    proof fn lemma_all_restored(&self)
        requires
            self.wf(),
            self.phase == CleanupPhase::Finished,
            self.copy_failure is None,
            self.result.failed_cleanups == 1,
        ensures
            (forall|j: int| 0 <= j < self.len() ==> self.states()[j] != BackupState::RestoreFailed)
                ==> self.kept_copies@.len() == 0 && self.result.rollback_operations
                == self.result.successful_cleanups,
    {
        let c = self.cursor as int;
        if forall|j: int| 0 <= j < self.len() ==> self.states()[j] != BackupState::RestoreFailed {
            assert forall|j: int| 0 <= j < c implies self.states@[j] == BackupState::Restored by {
                assert(self.states()[j] != BackupState::RestoreFailed);
            }
            lemma_restored_count_all(self.states@, c);
        }
    }

    /// Whether a finished batch deleted every backup file it was given.
    pub fn fully_cleaned(&self) -> (r: bool)
        requires
            self.wf(),
            self.phase() == CleanupPhase::Finished,
        ensures
            r <==> forall|j: int| 0 <= j < self.len() ==> self.states()[j] == BackupState::Removed,
    {
        let r = self.copy_failure.is_none() && self.result.failed_cleanups == 0;
        proof {
            let n = self.backup_files@.len() as int;
            if !r && n > 0 {
                assert(self.states@[n - 1] != BackupState::Removed);
            }
        }
        r
    }

    /// Law: a backup file is deleted only after its pair passed the check
    /// right before: the target exists and can be opened, the backup is a
    /// regular file, and their sizes are equal.
    pub proof fn law_removed_only_after_passing_check(&self)
        requires
            self.wf(),
        ensures
            forall|j: int|
                0 <= j < self.len() && self.states()[j] != BackupState::Untouched ==> passed_ok(
                    #[trigger] self.passed_check(j),
                ),
            forall|j: int|
                0 <= j < self.len() && self.states()[j] != BackupState::Untouched ==> {
                    let f = self.passed_check(j)->0;
                    &&& f.0.exists && f.0.is_file && f.1.exists && f.1.openable
                    &&& f.0.size == f.1.size
                },
    {
        assert forall|j: int|
            0 <= j < self.len() && self.states()[j] != BackupState::Untouched implies {
                let f = self.passed_check(j)->0;
                &&& f.0.exists && f.0.is_file && f.1.exists && f.1.openable
                &&& f.0.size == f.1.size
            } by {
            assert(passed_ok(self.passed@[j]));
        }
    }

    /// Law: a finished batch in which a deletion step failed and every
    /// restore succeeded has put back every backup file it deleted, never
    /// touched those from the failed pair on, and counts one rollback per
    /// deletion. If pair `k` (counted from 1) failed, pairs `1..k-1` are
    /// restored, pairs `k..` untouched, and there were `k - 1` rollbacks.
    pub proof fn law_rollback_restores_deleted(&self)
        requires
            self.wf(),
            self.phase() == CleanupPhase::Finished,
            self.failed() > 0,
            forall|j: int| 0 <= j < self.len() ==> self.states()[j] != BackupState::RestoreFailed,
        ensures
            forall|j: int| 0 <= j < self.successful() ==> self.states()[j] == BackupState::Restored,
            forall|j: int|
                self.successful() <= j < self.len() ==> self.states()[j] == BackupState::Untouched,
            self.rollbacks() == self.successful(),
    {
        lemma_restored_count_all(self.states@, self.cursor as int);
    }

    /// Law: once a deletion step has failed, the pairs from the failed one on
    /// are never touched, whatever becomes of the restores; and the backup
    /// files deleted before it are each restored or kept in their temporary
    /// copies.
    pub proof fn law_failure_leaves_rest_untouched(&self)
        requires
            self.wf(),
            self.failed() > 0,
        ensures
            forall|j: int|
                self.successful() <= j < self.len() ==> self.states()[j] == BackupState::Untouched,
            self.phase() == CleanupPhase::Finished ==> forall|j: int|
                0 <= j < self.successful() ==> self.states()[j] == BackupState::Restored
                    || self.states()[j] == BackupState::RestoreFailed,
    {
    }

    /// Law: a finished batch with no failure deleted every backup file.
    pub proof fn law_clean_batch_removes_all(&self)
        requires
            self.wf(),
            self.phase() == CleanupPhase::Finished,
            self.failed() == 0,
            !self.copy_failed(),
        ensures
            self.successful() == self.len(),
            self.rollbacks() == 0,
            forall|j: int| 0 <= j < self.len() ==> self.states()[j] == BackupState::Removed,
    {
    }
}

/// The suffix that names the temporary copies made at Unix second `now`.
pub open spec fn copy_suffix(now: u64) -> Seq<char> {
    ".cleanup_backup_"@ + decimal(now as nat)
}

/// The path of the temporary copy of `path` made at Unix second `now`:
/// `<path>.cleanup_backup_<now>`, beside the file it copies.
pub fn cleanup_copy_path(path: &str, now: u64) -> (r: String)
    ensures
        r@ == path@ + copy_suffix(now),
{
    let mut r = String::from_str(path);
    r.append(".cleanup_backup_");
    append_decimal(&mut r, now as u128);
    r
}

/// Law: temporary copies made at the same second are distinct for distinct
/// files, and a copy is never the file it copies.
pub proof fn law_copy_paths_distinct(a: Seq<char>, b: Seq<char>, now: u64)
    ensures
        a != b ==> a + copy_suffix(now) != b + copy_suffix(now),
        a + copy_suffix(now) != a,
{
    reveal_strlit(".cleanup_backup_");
    let s = copy_suffix(now);
    assert(s.len() > 0);
    if a != b && a + s == b + s {
        assert((a + s).len() == (b + s).len());
        assert(a.len() == b.len());
        assert(a =~= (a + s).subrange(0, a.len() as int));
        assert(b =~= (b + s).subrange(0, b.len() as int));
    }
    assert((a + s).len() != a.len());
}

} // verus!
