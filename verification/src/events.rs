//! The UI event plan for an automated run.
//!
//! Each stage of a run maps to an ordered list of events for the UI
//! channel.  In silent mode every plan is empty: the same information then
//! goes only to the process log, while operation-log persistence is decided
//! elsewhere and is unaffected by silence.

use vstd::prelude::*;
use vstd::string::*;
use crate::text::{concat2, spec_u64_string, u64_to_string};
use crate::update::{spec_bucket_detail, spec_success_count, UpdateResult};

verus! {

/// Which stream an output line is tagged with.
#[derive(Clone, Copy, PartialEq, Eq, Debug, Structural)]
pub enum EventSource {
    Stdout,
    Stderr,
}

impl EventSource {
    /// The tag carried in the event payload.
    pub fn label(&self) -> (r: &'static str)
        ensures
            *self is Stdout ==> r@ == "stdout"@,
            *self is Stderr ==> r@ == "stderr"@,
    {
        match *self {
            EventSource::Stdout => "stdout",
            EventSource::Stderr => "stderr",
        }
    }
}

/// One event for the UI channel.
pub enum UiEvent {
    /// Announces an automated operation; the payload is a description.
    AutoOperationStart { message: String },
    /// One line of operation output.
    OperationOutput { line: String, source: EventSource },
    /// Closes an operation with its aggregate success and a summary.
    OperationFinished { success: bool, message: String },
}

impl UiEvent {
    /// The channel name the event is emitted under.
    pub fn event_name(&self) -> (r: &'static str)
        ensures
            *self is AutoOperationStart ==> r@ == "auto-operation-start"@,
            *self is OperationOutput ==> r@ == "operation-output"@,
            *self is OperationFinished ==> r@ == "operation-finished"@,
    {
        match *self {
            UiEvent::AutoOperationStart { .. } => "auto-operation-start",
            UiEvent::OperationOutput { .. } => "operation-output",
            UiEvent::OperationFinished { .. } => "operation-finished",
        }
    }
}

/// The events announcing the bucket stage: none when silent, else the start
/// announcement and an opening output line.
pub fn bucket_start_events(silent: bool) -> (evs: Vec<UiEvent>)
    ensures
        silent ==> evs@.len() == 0,
        !silent ==> evs@.len() == 2 && (evs@[0] matches UiEvent::AutoOperationStart { message }
            && message@ == "Updating buckets..."@) && (evs@[1]
            matches UiEvent::OperationOutput { line, source } && line@
            == "Starting automatic bucket update..."@ && source is Stdout),
{
    let mut evs: Vec<UiEvent> = Vec::new();
    if !silent {
        evs.push(
            UiEvent::AutoOperationStart { message: String::from_str("Updating buckets...") },
        );
        evs.push(
            UiEvent::OperationOutput {
                line: String::from_str("Starting automatic bucket update..."),
                source: EventSource::Stdout,
            },
        );
    }
    evs
}

/// The events closing a completed bucket stage: none when silent, else one
/// output line per result, tagged by its success, and a finished event
/// whose success means every bucket updated.
pub fn bucket_finish_events(silent: bool, results: &Vec<UpdateResult>) -> (evs: Vec<UiEvent>)
    ensures
        silent ==> evs@.len() == 0,
        !silent ==> {
            &&& evs@.len() == results@.len() + 1
            &&& forall|i: int|
                0 <= i < results@.len() ==> ((#[trigger] evs@[i]) matches UiEvent::OperationOutput {
                    line,
                    source,
                } && line@ == spec_bucket_detail(results@[i]) && (source is Stdout
                    <==> results@[i].succeeded))
            &&& (evs@[results@.len() as int] matches UiEvent::OperationFinished {
                success,
                message,
            } && success == (spec_success_count(results@) == results@.len()) && message@
                == "Bucket update completed: "@ + spec_u64_string(spec_success_count(results@))
                + " of "@ + spec_u64_string(results@.len()) + " succeeded"@)
        },
{
    let mut evs: Vec<UiEvent> = Vec::new();
    if silent {
        return evs;
    }
    let total = results.len();
    let mut successes: usize = 0;
    let mut i: usize = 0;
    while i < total
        invariant
            total == results@.len(),
            i <= total,
            successes == spec_success_count(results@.take(i as int)),
            successes <= i,
            evs@.len() == i,
            forall|j: int|
                0 <= j < i ==> ((#[trigger] evs@[j]) matches UiEvent::OperationOutput { line, source }
                    && line@ == spec_bucket_detail(results@[j]) && (source is Stdout
                    <==> results@[j].succeeded)),
        decreases total - i,
    {
        proof {
            assert(results@.take(i + 1).drop_last() =~= results@.take(i as int));
            assert(results@.take(i + 1).last() == results@[i as int]);
        }
        let r = &results[i];
        let line = crate::update::bucket_detail_line(r);
        let source = if r.succeeded {
            EventSource::Stdout
        } else {
            EventSource::Stderr
        };
        if r.succeeded {
            successes = successes + 1;
        }
        evs.push(UiEvent::OperationOutput { line, source });
        i = i + 1;
    }
    proof {
        assert(results@.take(total as int) =~= results@);
        crate::update::lemma_success_count_bounded(results@);
    }
    let done = u64_to_string(successes as u64);
    let of_total = u64_to_string(total as u64);
    let mut message = concat2("Bucket update completed: ", done.as_str());
    message.append(" of ");
    message.append(of_total.as_str());
    message.append(" succeeded");
    evs.push(UiEvent::OperationFinished { success: successes == total, message });
    evs
}

/// The events reporting a bucket stage whose collaborator failed outright:
/// none when silent, else an error-tagged line and a failed finish.
pub fn bucket_failure_events(silent: bool, error: &str) -> (evs: Vec<UiEvent>)
    ensures
        silent ==> evs@.len() == 0,
        !silent ==> evs@.len() == 2 && (evs@[0] matches UiEvent::OperationOutput { line, source }
            && line@ == "Error: "@ + error@ && source is Stderr) && (evs@[1]
            matches UiEvent::OperationFinished { success, message } && !success && message@
            == "Bucket update failed: "@ + error@),
{
    let mut evs: Vec<UiEvent> = Vec::new();
    if !silent {
        evs.push(
            UiEvent::OperationOutput {
                line: concat2("Error: ", error),
                source: EventSource::Stderr,
            },
        );
        evs.push(
            UiEvent::OperationFinished {
                success: false,
                message: concat2("Bucket update failed: ", error),
            },
        );
    }
    evs
}

/// The events announcing the package stage: none when silent.
pub fn package_start_events(silent: bool) -> (evs: Vec<UiEvent>)
    ensures
        silent ==> evs@.len() == 0,
        !silent ==> evs@.len() == 2 && (evs@[0] matches UiEvent::AutoOperationStart { message }
            && message@ == "Updating packages..."@) && (evs@[1]
            matches UiEvent::OperationOutput { line, source } && line@
            == "Starting automatic package update..."@ && source is Stdout),
{
    let mut evs: Vec<UiEvent> = Vec::new();
    if !silent {
        evs.push(
            UiEvent::AutoOperationStart { message: String::from_str("Updating packages...") },
        );
        evs.push(
            UiEvent::OperationOutput {
                line: String::from_str("Starting automatic package update..."),
                source: EventSource::Stdout,
            },
        );
    }
    evs
}

/// The events closing a completed package stage: none when silent, else one
/// stdout-tagged line per output line and a successful finish.
pub fn package_finish_events(silent: bool, lines: &Vec<String>) -> (evs: Vec<UiEvent>)
    ensures
        silent ==> evs@.len() == 0,
        !silent ==> {
            &&& evs@.len() == lines@.len() + 1
            &&& forall|i: int|
                0 <= i < lines@.len() ==> ((#[trigger] evs@[i]) matches UiEvent::OperationOutput {
                    line,
                    source,
                } && line@ == lines@[i]@ && source is Stdout)
            &&& (evs@[lines@.len() as int] matches UiEvent::OperationFinished {
                success,
                message,
            } && success && message@ == "Automatic package update completed successfully"@)
        },
{
    let mut evs: Vec<UiEvent> = Vec::new();
    if silent {
        return evs;
    }
    let total = lines.len();
    let mut i: usize = 0;
    while i < total
        invariant
            total == lines@.len(),
            i <= total,
            evs@.len() == i,
            forall|j: int|
                0 <= j < i ==> ((#[trigger] evs@[j]) matches UiEvent::OperationOutput { line, source }
                    && line@ == lines@[j]@ && source is Stdout),
        decreases total - i,
    {
        let line = lines[i].clone();
        evs.push(UiEvent::OperationOutput { line, source: EventSource::Stdout });
        i = i + 1;
    }
    evs.push(
        UiEvent::OperationFinished {
            success: true,
            message: String::from_str("Automatic package update completed successfully"),
        },
    );
    evs
}

/// The events reporting a package stage whose collaborator failed: none
/// when silent, else an error-tagged line and a failed finish.
pub fn package_failure_events(silent: bool, error: &str) -> (evs: Vec<UiEvent>)
    ensures
        silent ==> evs@.len() == 0,
        !silent ==> evs@.len() == 2 && (evs@[0] matches UiEvent::OperationOutput { line, source }
            && line@ == "Error: "@ + error@ && source is Stderr) && (evs@[1]
            matches UiEvent::OperationFinished { success, message } && !success && message@
            == "Automatic package update failed: "@ + error@),
{
    let mut evs: Vec<UiEvent> = Vec::new();
    if !silent {
        evs.push(
            UiEvent::OperationOutput {
                line: concat2("Error: ", error),
                source: EventSource::Stderr,
            },
        );
        evs.push(
            UiEvent::OperationFinished {
                success: false,
                message: concat2("Automatic package update failed: ", error),
            },
        );
    }
    evs
}

} // verus!
