//! The factory-reset coordinator: composes the data sweep, the store-file
//! sweep, the marker write and the deferred embedded-browser cleanup, with
//! marker-writing failure as the only fatal condition.

use vstd::prelude::*;
use vstd::string::*;
use crate::reclaim::{SweepEntry, SweepSummary};
use crate::text::concat2;

verus! {

/// Number of entries whose removal succeeded.
pub open spec fn spec_removed_count(entries: Seq<SweepEntry>) -> nat
    decreases entries.len(),
{
    if entries.len() == 0 {
        0
    } else {
        spec_removed_count(entries.drop_last()) + (if entries.last().removed {
            1nat
        } else {
            0nat
        })
    }
}

/// Paths of the entries whose removal failed, in order.
pub open spec fn spec_unremoved_paths(entries: Seq<SweepEntry>) -> Seq<Seq<char>>
    decreases entries.len(),
{
    if entries.len() == 0 {
        Seq::empty()
    } else if entries.last().removed {
        spec_unremoved_paths(entries.drop_last())
    } else {
        spec_unremoved_paths(entries.drop_last()).push(entries.last().path@)
    }
}

/// Summarizes the store-file sweep: every candidate that existed was
/// attempted (no pre-classification here), the failures are reported but
/// never fatal, since files still in use are reclaimed on the next start.
pub fn summarize_store_sweep(entries: Vec<SweepEntry>) -> (r: SweepSummary)
    requires
        entries@.len() < u64::MAX,
    ensures
        r.cleared == spec_removed_count(entries@),
        r.failed_views() == spec_unremoved_paths(entries@),
{
    let ghost all = entries@;
    let mut cleared: u64 = 0;
    let mut failed: Vec<String> = Vec::new();
    let n = entries.len();
    let mut entries = entries;
    let mut i: usize = 0;
    proof {
        assert(failed@.map_values(|p: String| p@) =~= spec_unremoved_paths(all.take(0)));
        lemma_removed_count_bounded(all.take(0));
    }
    while i < n
        invariant
            n == all.len() < u64::MAX,
            entries@ == all.skip(i as int),
            i <= n,
            cleared == spec_removed_count(all.take(i as int)),
            cleared <= i,
            failed@.map_values(|p: String| p@) == spec_unremoved_paths(all.take(i as int)),
        decreases n - i,
    {
        proof {
            assert(all.take(i + 1).drop_last() =~= all.take(i as int));
            assert(all.take(i + 1).last() == all[i as int]);
            assert(all.skip(i as int)[0] == all[i as int]);
        }
        let e = entries.remove(0);
        proof {
            assert(entries@ =~= all.skip(i + 1));
        }
        if e.removed {
            cleared = cleared + 1;
        } else {
            let ghost prior = failed@.map_values(|p: String| p@);
            let ghost pv = e.path@;
            failed.push(e.path);
            proof {
                assert(failed@.map_values(|p: String| p@) =~= prior.push(pv));
            }
        }
        i = i + 1;
    }
    proof {
        assert(all.take(n as int) =~= all);
    }
    SweepSummary { cleared, failed }
}

/// Never more removals than entries.
proof fn lemma_removed_count_bounded(entries: Seq<SweepEntry>)
    ensures
        spec_removed_count(entries) <= entries.len(),
    decreases entries.len(),
{
    if entries.len() > 0 {
        lemma_removed_count_bounded(entries.drop_last());
    }
}

/// Resolves the outcome of writing the factory-reset marker from what the
/// filesystem reported: no data directory, a failed parent-directory
/// creation and a failed write are each fatal, with the error wrapped in a
/// fixed message.
pub fn marker_create_outcome(have_data_dir: bool, dir_error: &Option<String>, write_error: &Option<
    String,
>) -> (r: Result<(), String>)
    ensures
        !have_data_dir ==> (r matches Err(m) && m@ == "Could not determine app data directory"@),
        dir_error matches Some(e) ==> have_data_dir ==> (r matches Err(m) && m@
            == "Failed to create directory for marker: "@ + e@),
        write_error matches Some(e) ==> have_data_dir && dir_error is None ==> (r matches Err(m)
            && m@ == "Failed to create factory reset marker: "@ + e@),
        have_data_dir && dir_error is None && write_error is None ==> r is Ok,
{
    if !have_data_dir {
        return Err(String::from_str("Could not determine app data directory"));
    }
    if let Some(e) = dir_error {
        return Err(concat2("Failed to create directory for marker: ", e.as_str()));
    }
    if let Some(e) = write_error {
        return Err(concat2("Failed to create factory reset marker: ", e.as_str()));
    }
    Ok(())
}

/// Combines the factory-reset steps in order: the application-data sweep,
/// the store-file sweep, the marker write, then scheduling the deferred
/// embedded-browser cleanup.  The sweeps report success even when entries
/// were skipped, so in practice only a marker failure is fatal.
pub fn factory_reset_outcome(
    data_sweep: Result<u64, String>,
    store_sweep: Result<u64, String>,
    marker: Result<(), String>,
    deferred_cleanup: Result<(), String>,
) -> (r: Result<(), String>)
    ensures
        r is Ok <==> (data_sweep is Ok && store_sweep is Ok && marker is Ok && deferred_cleanup
            is Ok),
        data_sweep matches Err(e) ==> (r matches Err(m) && m == e),
        store_sweep matches Err(e) ==> data_sweep is Ok ==> (r matches Err(m) && m == e),
        marker matches Err(e) ==> data_sweep is Ok && store_sweep is Ok ==> (r matches Err(m)
            && m == e),
        deferred_cleanup matches Err(e) ==> data_sweep is Ok && store_sweep is Ok && marker is Ok
            ==> (r matches Err(m) && m == e),
{
    if let Err(e) = data_sweep {
        return Err(e);
    }
    if let Err(e) = store_sweep {
        return Err(e);
    }
    if let Err(e) = marker {
        return Err(e);
    }
    if let Err(e) = deferred_cleanup {
        return Err(e);
    }
    Ok(())
}

} // verus!
