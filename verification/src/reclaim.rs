//! The resource reclamation engine: bounded-retry removal of files and
//! directories that refuses to touch targets classified as locked.
//!
//! The filesystem calls happen outside this crate.  A caller drives a
//! `RemovalTask` per target: while `needs_attempt` holds it performs one
//! removal attempt and reports the outcome with `record_attempt`; between
//! failed attempts it waits `retry_delay_ms`, and for a directory it first
//! tries the children individually.  The machine proves that a locked
//! target is never attempted and that no target is attempted more than the
//! fixed bound of times.

use vstd::prelude::*;
use crate::classify::{
    is_file_locked_by_current_process, is_webview_locked_dir, is_webview_locked_file,
    spec_locked_by_current_process, spec_webview_locked_dir, spec_webview_locked_file,
};

verus! {

/// What a removal target is.
#[derive(Clone, Copy, PartialEq, Eq, Debug, Structural)]
pub enum TargetKind {
    File,
    Dir,
}

/// Where a removal task stands.
#[derive(Clone, Copy, PartialEq, Eq, Debug, Structural)]
pub enum RemovalStatus {
    /// The target was classified as locked; it is never attempted.
    SkippedLocked,
    /// More attempts may be made.
    Pending,
    /// An attempt succeeded.
    Removed,
    /// The retry bound was exhausted; the target is reported as failed.
    GaveUp,
}

/// A bounded-retry removal of one reclaimable target.
#[derive(Clone, Copy, PartialEq, Eq, Debug, Structural)]
pub struct RemovalTask {
    pub kind: TargetKind,
    pub status: RemovalStatus,
    pub attempts_made: u32,
}

impl RemovalTask {
    /// The fixed retry bound.
    pub open spec fn retry_bound() -> u32 {
        3
    }

    /// Structural invariant tying the attempt count to the status.
    pub open spec fn wf(&self) -> bool {
        &&& (self.status is Pending ==> self.attempts_made < Self::retry_bound())
        &&& (self.status is GaveUp ==> self.attempts_made == Self::retry_bound())
        &&& (self.status is SkippedLocked ==> self.attempts_made == 0)
        &&& (self.status is Removed ==> 1 <= self.attempts_made <= Self::retry_bound())
    }

    /// The task a classification starts in: locked targets are skipped
    /// outright, everything else may be attempted.
    pub open spec fn spec_start(kind: TargetKind, locked: bool) -> RemovalTask {
        RemovalTask {
            kind,
            status: if locked {
                RemovalStatus::SkippedLocked
            } else {
                RemovalStatus::Pending
            },
            attempts_made: 0,
        }
    }

    /// The state after one recorded attempt in a pending task.
    pub open spec fn spec_record(self, removed: bool) -> RemovalTask {
        RemovalTask {
            status: if removed {
                RemovalStatus::Removed
            } else if self.attempts_made + 1 == Self::retry_bound() {
                RemovalStatus::GaveUp
            } else {
                RemovalStatus::Pending
            },
            attempts_made: (self.attempts_made + 1) as u32,
            ..self
        }
    }

    /// Starts a removal task for a file path, skipping embedded-browser
    /// locked database files.
    pub fn start_file(path: &str) -> (r: RemovalTask)
        ensures
            r == Self::spec_start(TargetKind::File, spec_webview_locked_file(path@)),
            r.wf(),
    {
        let locked = is_webview_locked_file(path);
        RemovalTask {
            kind: TargetKind::File,
            status: if locked {
                RemovalStatus::SkippedLocked
            } else {
                RemovalStatus::Pending
            },
            attempts_made: 0,
        }
    }

    /// Starts a removal task for a directory path, skipping embedded-browser
    /// locked database directories.
    pub fn start_dir(path: &str) -> (r: RemovalTask)
        ensures
            r == Self::spec_start(TargetKind::Dir, spec_webview_locked_dir(path@)),
            r.wf(),
    {
        let locked = is_webview_locked_dir(path);
        RemovalTask {
            kind: TargetKind::Dir,
            status: if locked {
                RemovalStatus::SkippedLocked
            } else {
                RemovalStatus::Pending
            },
            attempts_made: 0,
        }
    }

    /// Whether the caller should perform one more removal attempt.
    pub fn needs_attempt(&self) -> (r: bool)
        ensures
            r == (self.status is Pending),
    {
        match self.status {
            RemovalStatus::Pending => true,
            _ => false,
        }
    }

    /// Records the outcome of one removal attempt.  After a failure that
    /// leaves the task pending, the caller waits `retry_delay_ms` before the
    /// next attempt, and for a directory first removes its children
    /// individually to shrink the remaining locked surface.
    pub fn record_attempt(&mut self, removed: bool)
        requires
            old(self).wf(),
            old(self).status is Pending,
        ensures
            *final(self) == old(self).spec_record(removed),
            final(self).wf(),
    {
        self.attempts_made = self.attempts_made + 1;
        self.status = if removed {
            RemovalStatus::Removed
        } else if self.attempts_made == 3 {
            RemovalStatus::GaveUp
        } else {
            RemovalStatus::Pending
        };
    }

    /// Whether the target ended up removed.
    pub fn removed(&self) -> (r: bool)
        ensures
            r == (self.status is Removed),
    {
        match self.status {
            RemovalStatus::Removed => true,
            _ => false,
        }
    }

    /// The fixed delay before a retry, in milliseconds.
    pub fn retry_delay_ms(&self) -> (r: u64)
        ensures
            self.kind is File ==> r == 100,
            self.kind is Dir ==> r == 200,
    {
        match self.kind {
            TargetKind::File => 100,
            TargetKind::Dir => 200,
        }
    }
}

/// One enumerated entry of a data-directory sweep, with the outcome its
/// removal task reported.  `removed` is meaningless for a file the sweep
/// pre-classified as locked: such a file is never attempted.
pub struct SweepEntry {
    pub path: String,
    pub is_dir: bool,
    pub removed: bool,
}

/// A file entry counts as cleared when it was not pre-classified as locked
/// and its removal succeeded.  Removed directories are not counted.
pub open spec fn entry_cleared(e: SweepEntry) -> bool {
    !e.is_dir && !spec_locked_by_current_process(e.path@) && e.removed
}

/// An entry lands in the skipped list when it was pre-classified as locked
/// or its removal did not succeed.
pub open spec fn entry_failed(e: SweepEntry) -> bool {
    if e.is_dir {
        !e.removed
    } else {
        spec_locked_by_current_process(e.path@) || !e.removed
    }
}

/// Number of cleared entries in a sweep.
pub open spec fn spec_cleared_count(entries: Seq<SweepEntry>) -> nat
    decreases entries.len(),
{
    if entries.len() == 0 {
        0
    } else {
        spec_cleared_count(entries.drop_last()) + (if entry_cleared(entries.last()) {
            1nat
        } else {
            0nat
        })
    }
}

/// Paths of the entries a sweep could not remove, in enumeration order.
pub open spec fn spec_failed_paths(entries: Seq<SweepEntry>) -> Seq<Seq<char>>
    decreases entries.len(),
{
    if entries.len() == 0 {
        Seq::empty()
    } else if entry_failed(entries.last()) {
        spec_failed_paths(entries.drop_last()).push(entries.last().path@)
    } else {
        spec_failed_paths(entries.drop_last())
    }
}

/// Outcome of sweeping one data directory: how many entries were cleared
/// and which could not be removed.
pub struct SweepSummary {
    pub cleared: u64,
    pub failed: Vec<String>,
}

impl SweepSummary {
    /// View of the skipped list as character sequences.
    pub open spec fn failed_views(&self) -> Seq<Seq<char>> {
        self.failed@.map_values(|p: String| p@)
    }

    /// An empty summary.
    pub fn new() -> (r: SweepSummary)
        ensures
            r.cleared == 0,
            r.failed_views() == Seq::<Seq<char>>::empty(),
    {
        let r = SweepSummary { cleared: 0, failed: Vec::new() };
        proof {
            assert(r.failed_views() =~= Seq::<Seq<char>>::empty());
        }
        r
    }

    /// Folds one entry into the summary.
    pub fn record(&mut self, e: SweepEntry)
        requires
            old(self).cleared < u64::MAX,
        ensures
            final(self).cleared == old(self).cleared + (if entry_cleared(e) {
                1int
            } else {
                0int
            }),
            final(self).failed_views() == (if entry_failed(e) {
                old(self).failed_views().push(e.path@)
            } else {
                old(self).failed_views()
            }),
    {
        if e.is_dir {
            if !e.removed {
                let ghost prior = self.failed_views();
                let ghost p = e.path@;
                self.failed.push(e.path);
                proof {
                    assert(self.failed_views() =~= prior.push(p));
                }
            }
        } else {
            if is_file_locked_by_current_process(e.path.as_str()) || !e.removed {
                let ghost prior = self.failed_views();
                let ghost p = e.path@;
                self.failed.push(e.path);
                proof {
                    assert(self.failed_views() =~= prior.push(p));
                }
            } else {
                self.cleared = self.cleared + 1;
            }
        }
    }
}

/// Summarizes a whole directory sweep from its enumerated entries and their
/// removal outcomes.
pub fn summarize_sweep(entries: Vec<SweepEntry>) -> (r: SweepSummary)
    requires
        entries@.len() < u64::MAX,
    ensures
        r.cleared == spec_cleared_count(entries@),
        r.failed_views() == spec_failed_paths(entries@),
{
    let ghost all = entries@;
    let mut summary = SweepSummary::new();
    let n = entries.len();
    let mut entries = entries;
    let mut i: usize = 0;
    proof {
        assert(spec_cleared_count(all.take(0)) == 0) by {
            assert(all.take(0).len() == 0);
        }
        assert(spec_failed_paths(all.take(0)) =~= Seq::<Seq<char>>::empty());
    }
    while i < n
        invariant
            n == all.len() < u64::MAX,
            entries@ == all.skip(i as int),
            i <= n,
            summary.cleared == spec_cleared_count(all.take(i as int)),
            summary.failed_views() == spec_failed_paths(all.take(i as int)),
        decreases n - i,
    {
        proof {
            assert(spec_cleared_count(all.take(i as int)) <= all.take(i as int).len()) by {
                lemma_cleared_count_bounded(all.take(i as int));
            }
            assert(all.take(i + 1).drop_last() =~= all.take(i as int));
            assert(all.take(i + 1).last() == all[i as int]);
            assert(all.skip(i as int)[0] == all[i as int]);
        }
        let e = entries.remove(0);
        proof {
            assert(entries@ =~= all.skip(i + 1));
        }
        summary.record(e);
        i = i + 1;
    }
    proof {
        assert(all.take(n as int) =~= all);
    }
    summary
}

/// A sweep never counts more cleared entries than it saw.
proof fn lemma_cleared_count_bounded(entries: Seq<SweepEntry>)
    ensures
        spec_cleared_count(entries) <= entries.len(),
    decreases entries.len(),
{
    if entries.len() > 0 {
        lemma_cleared_count_bounded(entries.drop_last());
    }
}

/// A data sweep reports success to its caller even when entries had to be
/// skipped: leftovers are expected to be reclaimed on a later start, so
/// they never surface as an error.
pub fn sweep_outcome(summary: &SweepSummary) -> (r: Result<u64, String>)
    ensures
        r == Result::<u64, String>::Ok(summary.cleared),
{
    Ok(summary.cleared)
}

/// The task reached by starting on a classification and recording the given
/// attempt outcomes in order, stopping once the task is no longer pending.
pub open spec fn spec_run_removal(kind: TargetKind, locked: bool, outcomes: Seq<bool>) -> RemovalTask
    decreases outcomes.len(),
{
    if outcomes.len() == 0 {
        RemovalTask::spec_start(kind, locked)
    } else {
        let prev = spec_run_removal(kind, locked, outcomes.drop_last());
        if prev.status is Pending {
            prev.spec_record(outcomes.last())
        } else {
            prev
        }
    }
}

/// Every reachable task satisfies the structural invariant; in particular
/// no run makes more than the fixed bound of attempts.
pub proof fn lemma_removal_bounded(kind: TargetKind, locked: bool, outcomes: Seq<bool>)
    ensures
        spec_run_removal(kind, locked, outcomes).wf(),
        spec_run_removal(kind, locked, outcomes).attempts_made <= RemovalTask::retry_bound(),
    decreases outcomes.len(),
{
    if outcomes.len() > 0 {
        lemma_removal_bounded(kind, locked, outcomes.drop_last());
    }
}

/// A target classified as locked is never attempted and never removed,
/// under any sequence of attempt outcomes.
pub proof fn lemma_locked_never_deleted(kind: TargetKind, outcomes: Seq<bool>)
    ensures
        spec_run_removal(kind, true, outcomes) == RemovalTask::spec_start(kind, true),
        spec_run_removal(kind, true, outcomes).attempts_made == 0,
        !(spec_run_removal(kind, true, outcomes).status is Removed),
    decreases outcomes.len(),
{
    if outcomes.len() > 0 {
        lemma_locked_never_deleted(kind, outcomes.drop_last());
    }
}

/// A reclaimable target whose attempts all fail is reported failed after
/// exactly the fixed bound of attempts.
pub proof fn lemma_exhausted_retries_give_up(kind: TargetKind, outcomes: Seq<bool>)
    requires
        outcomes.len() >= RemovalTask::retry_bound(),
        forall|i: int| 0 <= i < outcomes.len() ==> !outcomes[i],
    ensures
        spec_run_removal(kind, false, outcomes).status is GaveUp,
        spec_run_removal(kind, false, outcomes).attempts_made == RemovalTask::retry_bound(),
    decreases outcomes.len(),
{
    if outcomes.len() == RemovalTask::retry_bound() {
        let o1 = outcomes.drop_last();
        let o2 = o1.drop_last();
        assert(o2.drop_last() =~= Seq::<bool>::empty());
        assert(!outcomes[0] && !outcomes[1] && !outcomes[2]);
        assert(o1.last() == outcomes[1] && o2.last() == outcomes[0]);
        let s0 = RemovalTask::spec_start(kind, false);
        assert(spec_run_removal(kind, false, o2.drop_last()) == s0);
        assert(spec_run_removal(kind, false, o2) == s0.spec_record(false));
        assert(spec_run_removal(kind, false, o1) == s0.spec_record(false).spec_record(false));
        assert(spec_run_removal(kind, false, outcomes) == s0.spec_record(false).spec_record(
            false,
        ).spec_record(false));
    } else {
        lemma_exhausted_retries_give_up(kind, outcomes.drop_last());
    }
}

} // verus!
