//! The update orchestrator's summarization logic: per-target outcomes are
//! folded into operation log entries and into the UI event plan for a run.
//!
//! The collaborator that actually updates buckets or packages lives outside;
//! callers hand its per-target results (or its error) to these functions and
//! emit the returned events in order.

use vstd::prelude::*;
use vstd::string::*;
use crate::text::{concat2, concat4, contains_seq, spec_u64_string, str_contains, u64_to_string};

verus! {

/// Which stage produced a log entry.
#[derive(Clone, Copy, PartialEq, Eq, Debug, Structural)]
pub enum OperationType {
    Bucket,
    Package,
}

impl OperationType {
    /// The stable key this operation type is logged under.
    pub fn label(&self) -> (r: &'static str)
        ensures
            *self is Bucket ==> r@ == "bucket"@,
            *self is Package ==> r@ == "package"@,
    {
        match *self {
            OperationType::Bucket => "bucket",
            OperationType::Package => "package",
        }
    }
}

/// Aggregate outcome of a stage.
#[derive(Clone, Copy, PartialEq, Eq, Debug, Structural)]
pub enum OperationOutcome {
    Success,
    Partial,
    Failed,
}

impl OperationOutcome {
    /// The stable key this outcome is logged under.
    pub fn label(&self) -> (r: &'static str)
        ensures
            *self is Success ==> r@ == "success"@,
            *self is Partial ==> r@ == "partial"@,
            *self is Failed ==> r@ == "failed"@,
    {
        match *self {
            OperationOutcome::Success => "success",
            OperationOutcome::Partial => "partial",
            OperationOutcome::Failed => "failed",
        }
    }
}

/// Outcome of updating one bucket.
pub struct UpdateResult {
    pub target_name: String,
    pub succeeded: bool,
    pub message: String,
}

/// One persisted operation-log entry.
pub struct UpdateLogEntry {
    /// Epoch seconds captured when the entry was created.
    pub timestamp: i64,
    pub operation_type: OperationType,
    pub operation_result: OperationOutcome,
    pub success_count: u32,
    pub total_count: u32,
    pub details: Vec<String>,
}

impl UpdateLogEntry {
    /// Every produced entry counts no more successes than targets and
    /// records at least one target.
    pub open spec fn wf(&self) -> bool {
        self.success_count <= self.total_count && self.total_count >= 1
    }

    /// View of the detail lines as character sequences.
    pub open spec fn detail_views(&self) -> Seq<Seq<char>> {
        self.details@.map_values(|d: String| d@)
    }
}

/// The aggregate outcome for `succ` successes out of `total` targets:
/// success exactly when all succeeded, partial when at least one did.
pub open spec fn spec_outcome(succ: nat, total: nat) -> OperationOutcome {
    if succ == total {
        OperationOutcome::Success
    } else if succ > 0 {
        OperationOutcome::Partial
    } else {
        OperationOutcome::Failed
    }
}

/// Number of succeeded results.
pub open spec fn spec_success_count(rs: Seq<UpdateResult>) -> nat
    decreases rs.len(),
{
    if rs.len() == 0 {
        0
    } else {
        spec_success_count(rs.drop_last()) + (if rs.last().succeeded {
            1nat
        } else {
            0nat
        })
    }
}

/// No more results succeed than there are results.
pub proof fn lemma_success_count_bounded(rs: Seq<UpdateResult>)
    ensures
        spec_success_count(rs) <= rs.len(),
    decreases rs.len(),
{
    if rs.len() > 0 {
        lemma_success_count_bounded(rs.drop_last());
    }
}

/// The detail line recorded for one bucket result.
pub open spec fn spec_bucket_detail(r: UpdateResult) -> Seq<char> {
    if r.succeeded {
        "\u{2713} Updated bucket: "@ + r.target_name@
    } else {
        "\u{2717} Failed to update "@ + r.target_name@ + ": "@ + r.message@
    }
}

/// Renders the detail line for one bucket result.
pub fn bucket_detail_line(r: &UpdateResult) -> (s: String)
    ensures
        s@ == spec_bucket_detail(*r),
{
    if r.succeeded {
        concat2("\u{2713} Updated bucket: ", r.target_name.as_str())
    } else {
        concat4(
            "\u{2717} Failed to update ",
            r.target_name.as_str(),
            ": ",
            r.message.as_str(),
        )
    }
}

/// Counts the succeeded results.
fn count_successes(results: &Vec<UpdateResult>) -> (n: usize)
    ensures
        n == spec_success_count(results@),
{
    let mut n: usize = 0;
    let len = results.len();
    let mut i: usize = 0;
    while i < len
        invariant
            len == results@.len(),
            i <= len,
            n == spec_success_count(results@.take(i as int)),
            n <= i,
        decreases len - i,
    {
        proof {
            assert(results@.take(i + 1).drop_last() =~= results@.take(i as int));
            assert(results@.take(i + 1).last() == results@[i as int]);
        }
        if results[i].succeeded {
            n = n + 1;
        }
        i = i + 1;
    }
    proof {
        assert(results@.take(len as int) =~= results@);
    }
    n
}

/// Builds the bucket-stage log entry from the per-target results.  A run
/// with no targets is recorded as one success out of one, so an empty run
/// is distinguishable from a failed one.
pub fn bucket_log_entry(results: &Vec<UpdateResult>, timestamp: i64) -> (e: UpdateLogEntry)
    requires
        results@.len() <= u32::MAX,
    ensures
        e.timestamp == timestamp,
        e.operation_type is Bucket,
        e.operation_result == spec_outcome(spec_success_count(results@), results@.len()),
        results@.len() > 0 ==> e.success_count == spec_success_count(results@) && e.total_count
            == results@.len(),
        results@.len() == 0 ==> e.success_count == 1 && e.total_count == 1,
        e.detail_views() == results@.map_values(|r: UpdateResult| spec_bucket_detail(r)),
        e.wf(),
{
    proof {
        lemma_success_count_bounded(results@);
    }
    let successes = count_successes(results);
    let total = results.len();
    let mut details: Vec<String> = Vec::new();
    let mut i: usize = 0;
    proof {
        assert(details@.map_values(|d: String| d@) =~= results@.take(0).map_values(
            |r: UpdateResult| spec_bucket_detail(r),
        ));
    }
    while i < total
        invariant
            total == results@.len(),
            i <= total,
            details@.map_values(|d: String| d@) == results@.take(i as int).map_values(
                |r: UpdateResult| spec_bucket_detail(r),
            ),
        decreases total - i,
    {
        let line = bucket_detail_line(&results[i]);
        let ghost prior = details@.map_values(|d: String| d@);
        details.push(line);
        proof {
            assert(details@.map_values(|d: String| d@) =~= prior.push(
                spec_bucket_detail(results@[i as int]),
            ));
            assert(results@.take(i + 1).map_values(|r: UpdateResult| spec_bucket_detail(r))
                =~= prior.push(spec_bucket_detail(results@[i as int])));
        }
        i = i + 1;
    }
    proof {
        assert(results@.take(total as int) =~= results@);
    }
    let operation_result = if successes == total {
        OperationOutcome::Success
    } else if successes > 0 {
        OperationOutcome::Partial
    } else {
        OperationOutcome::Failed
    };
    let (success_count, total_count): (u32, u32) = if total == 0 {
        (1, 1)
    } else {
        (successes as u32, total as u32)
    };
    UpdateLogEntry {
        timestamp,
        operation_type: OperationType::Bucket,
        operation_result,
        success_count,
        total_count,
        details,
    }
}

/// The bucket-stage log entry when the update collaborator itself failed:
/// one failed target whose detail line wraps the error.
pub fn bucket_failure_entry(error: &str, timestamp: i64) -> (e: UpdateLogEntry)
    ensures
        e.timestamp == timestamp,
        e.operation_type is Bucket,
        e.operation_result is Failed,
        e.success_count == 0,
        e.total_count == 1,
        e.detail_views() == seq![("Error: "@ + error@)],
        e.wf(),
{
    let line = concat2("Error: ", error);
    let mut details: Vec<String> = Vec::new();
    let ghost line_view = line@;
    details.push(line);
    proof {
        assert(details@.map_values(|d: String| d@) =~= seq![line_view]);
    }
    UpdateLogEntry {
        timestamp,
        operation_type: OperationType::Bucket,
        operation_result: OperationOutcome::Failed,
        success_count: 0,
        total_count: 1,
        details,
    }
}

/// A headless package-update output line that reports an applied update:
/// it carries the updated marker and not the already-up-to-date marker.
pub open spec fn line_reports_update(l: Seq<char>) -> bool {
    contains_seq(l, "Updated"@) && !contains_seq(l, "up to date"@)
}

/// Number of lines reporting an applied update.
pub open spec fn spec_updated_count(lines: Seq<Seq<char>>) -> nat
    decreases lines.len(),
{
    if lines.len() == 0 {
        0
    } else {
        spec_updated_count(lines.drop_last()) + (if line_reports_update(lines.last()) {
            1nat
        } else {
            0nat
        })
    }
}

/// No more lines report updates than there are lines.
pub proof fn lemma_updated_count_bounded(lines: Seq<Seq<char>>)
    ensures
        spec_updated_count(lines) <= lines.len(),
    decreases lines.len(),
{
    if lines.len() > 0 {
        lemma_updated_count_bounded(lines.drop_last());
    }
}

/// Counts the package-update output lines that report an applied update.
pub fn count_updated_lines(lines: &Vec<String>) -> (n: usize)
    ensures
        n == spec_updated_count(lines@.map_values(|l: String| l@)),
{
    let ghost views = lines@.map_values(|l: String| l@);
    let mut n: usize = 0;
    let len = lines.len();
    let mut i: usize = 0;
    while i < len
        invariant
            len == lines@.len(),
            views == lines@.map_values(|l: String| l@),
            i <= len,
            n == spec_updated_count(views.take(i as int)),
            n <= i,
        decreases len - i,
    {
        proof {
            assert(views.take(i + 1).drop_last() =~= views.take(i as int));
            assert(views.take(i + 1).last() == views[i as int]);
        }
        let l = lines[i].as_str();
        if str_contains(l, "Updated") && !str_contains(l, "up to date") {
            n = n + 1;
        }
        i = i + 1;
    }
    proof {
        assert(views.take(len as int) =~= views);
    }
    n
}

/// Builds the package-stage log entry from the collaborator's output lines.
/// The count of updated-package lines is a heuristic over free text; an
/// empty run is recorded with a total of one so the entry never reads as
/// zero of zero, while the success count stays the plain count.
pub fn package_log_entry(lines: Vec<String>, timestamp: i64) -> (e: UpdateLogEntry)
    requires
        lines@.len() <= u32::MAX,
    ensures
        e.timestamp == timestamp,
        e.operation_type is Package,
        e.operation_result is Success,
        e.success_count == spec_updated_count(lines@.map_values(|l: String| l@)),
        e.total_count == (if lines@.len() == 0 {
            1int
        } else {
            lines@.len() as int
        }),
        e.detail_views() == lines@.map_values(|l: String| l@),
        e.wf(),
{
    proof {
        lemma_updated_count_bounded(lines@.map_values(|l: String| l@));
    }
    let cnt = count_updated_lines(&lines);
    let len = lines.len();
    let success_count: u32 = cnt as u32;
    let total_count: u32 = if len == 0 {
        1
    } else {
        len as u32
    };
    UpdateLogEntry {
        timestamp,
        operation_type: OperationType::Package,
        operation_result: OperationOutcome::Success,
        success_count,
        total_count,
        details: lines,
    }
}

/// The package-stage log entry when the headless update collaborator
/// failed: one failed target, the error wrapped as the only detail line.
pub fn package_failure_entry(error: &str, timestamp: i64) -> (e: UpdateLogEntry)
    ensures
        e.timestamp == timestamp,
        e.operation_type is Package,
        e.operation_result is Failed,
        e.success_count == 0,
        e.total_count == 1,
        e.detail_views() == seq![("Error: "@ + error@)],
        e.wf(),
{
    let line = concat2("Error: ", error);
    let mut details: Vec<String> = Vec::new();
    let ghost line_view = line@;
    details.push(line);
    proof {
        assert(details@.map_values(|d: String| d@) =~= seq![line_view]);
    }
    UpdateLogEntry {
        timestamp,
        operation_type: OperationType::Package,
        operation_result: OperationOutcome::Failed,
        success_count: 0,
        total_count: 1,
        details,
    }
}

} // verus!
