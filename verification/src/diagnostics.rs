//! Diagnostic reporting: the application state summary and the ordering
//! of log files for display.  Reading directories, file sizes and
//! modification times happens outside; the selection and ordering logic
//! is verified here.

use vstd::prelude::*;
use vstd::string::*;
use vstd::multiset::Multiset;
use crate::cache::InstalledPackageCache;
use crate::text::{concat3, has_suffix, str_has_suffix};

verus! {

/// A log file as listed for display.
pub struct LogFileInfo {
    pub path: String,
    pub size: u64,
    pub modified_epoch: u64,
}

/// Diagnostic summary of the application's state.
pub struct DebugReport {
    pub timestamp_rfc3339: String,
    pub scoop_path: String,
    pub apps_dir_exists: bool,
    pub app_count: u64,
    pub cached_count: u64,
    pub fingerprint: Option<String>,
}

/// Assembles the diagnostic report from the on-disk facts and the shared
/// cache slot's content.
pub fn build_debug_report(
    timestamp_rfc3339: String,
    scoop_path: String,
    apps_dir_exists: bool,
    app_count: u64,
    cache: &Option<InstalledPackageCache>,
) -> (r: DebugReport)
    requires
        cache matches Some(c) ==> c.packages@.len() <= u64::MAX,
    ensures
        r.timestamp_rfc3339 == timestamp_rfc3339,
        r.scoop_path == scoop_path,
        r.apps_dir_exists == apps_dir_exists,
        r.app_count == app_count,
        cache matches Some(c) ==> r.cached_count == c.packages@.len() && (r.fingerprint
            matches Some(f) && f@ == c.fingerprint@),
        cache is None ==> r.cached_count == 0 && r.fingerprint is None,
{
    let (cached_count, fingerprint): (u64, Option<String>) = match cache {
        Some(c) => (c.packages.len() as u64, Some(c.fingerprint.clone())),
        None => (0, None),
    };
    DebugReport {
        timestamp_rfc3339,
        scoop_path,
        apps_dir_exists,
        app_count,
        cached_count,
        fingerprint,
    }
}

/// The fallback text shown when the application log file does not exist.
pub fn log_file_missing_message(path: &str) -> (r: String)
    ensures
        r@ == "Log file not found at: "@ + path@
            + "\n\nLogs will be created after the first run."@,
{
    concat3("Log file not found at: ", path, "\n\nLogs will be created after the first run.")
}

/// The configured log retention, which is fixed.
pub fn get_log_retention_days() -> (r: Result<i32, String>)
    ensures
        r == Result::<i32, String>::Ok(7i32),
{
    Ok(7)
}

/// Accepts a log retention setting; retention is fixed, so any requested
/// value is acknowledged without effect.
pub fn set_log_retention_days(days: i32) -> (r: Result<(), String>)
    ensures
        r is Ok,
{
    let _ = days;
    Ok(())
}

/// The entries whose paths end in the log-file extension, in order.
pub open spec fn spec_log_entries(entries: Seq<LogFileInfo>) -> Seq<LogFileInfo>
    decreases entries.len(),
{
    if entries.len() == 0 {
        Seq::empty()
    } else if has_suffix(entries.last().path@, ".log"@) {
        spec_log_entries(entries.drop_last()).push(entries.last())
    } else {
        spec_log_entries(entries.drop_last())
    }
}

/// Keeps only the log files among directory entries.
pub fn filter_log_files(entries: Vec<LogFileInfo>) -> (r: Vec<LogFileInfo>)
    ensures
        r@ == spec_log_entries(entries@),
{
    let ghost all = entries@;
    let mut r: Vec<LogFileInfo> = Vec::new();
    let n = entries.len();
    let mut entries = entries;
    let mut i: usize = 0;
    proof {
        assert(r@ =~= spec_log_entries(all.take(0)));
    }
    while i < n
        invariant
            n == all.len(),
            entries@ == all.skip(i as int),
            i <= n,
            r@ == spec_log_entries(all.take(i as int)),
        decreases n - i,
    {
        proof {
            assert(all.take(i + 1).drop_last() =~= all.take(i as int));
            assert(all.take(i + 1).last() == all[i as int]);
            assert(all.skip(i as int)[0] == all[i as int]);
        }
        let e = entries.remove(0);
        proof {
            assert(entries@ =~= all.skip(i + 1));
        }
        if str_has_suffix(e.path.as_str(), ".log") {
            r.push(e);
        }
        i = i + 1;
    }
    proof {
        assert(all.take(n as int) =~= all);
    }
    r
}

/// The files are ordered newest first.
pub open spec fn sorted_newest_first(files: Seq<LogFileInfo>) -> bool {
    forall|i: int, j: int|
        0 <= i <= j < files.len() ==> #[trigger] files[i].modified_epoch >= #[trigger] files[j].modified_epoch
}

/// Index of a newest entry.
fn index_of_newest(files: &Vec<LogFileInfo>) -> (mi: usize)
    requires
        files@.len() > 0,
    ensures
        mi < files@.len(),
        forall|j: int|
            0 <= j < files@.len() ==> files@[j].modified_epoch <= files@[mi as int].modified_epoch,
{
    let mut mi: usize = 0;
    let len = files.len();
    let mut i: usize = 1;
    while i < len
        invariant
            len == files@.len(),
            mi < i <= len,
            forall|j: int|
                0 <= j < i ==> files@[j].modified_epoch <= files@[mi as int].modified_epoch,
        decreases len - i,
    {
        if files[i].modified_epoch > files[mi].modified_epoch {
            mi = i;
        }
        i = i + 1;
    }
    mi
}

/// Orders log files newest first, keeping exactly the given files.  The
/// caller displays a fixed number from the front.
pub fn sort_newest_first(files: Vec<LogFileInfo>) -> (r: Vec<LogFileInfo>)
    ensures
        r@.to_multiset() == files@.to_multiset(),
        r@.len() == files@.len(),
        sorted_newest_first(r@),
{
    broadcast use vstd::seq_lib::group_to_multiset_ensures;
    broadcast use vstd::multiset::group_multiset_axioms;

    let ghost original = files@;
    let mut rem = files;
    let mut out: Vec<LogFileInfo> = Vec::new();
    proof {
        assert(out@.to_multiset().add(rem@.to_multiset()) =~= original.to_multiset());
    }
    while rem.len() > 0
        invariant
            out@.to_multiset().add(rem@.to_multiset()) == original.to_multiset(),
            out@.len() + rem@.len() == original.len(),
            sorted_newest_first(out@),
            forall|i: int, j: int|
                0 <= i < out@.len() && 0 <= j < rem@.len() ==> #[trigger] out@[i].modified_epoch
                    >= #[trigger] rem@[j].modified_epoch,
        decreases rem.len(),
    {
        let ghost prev_out = out@;
        let ghost prev_rem = rem@;
        let mi = index_of_newest(&rem);
        let e = rem.remove(mi);
        out.push(e);
        proof {
            broadcast use vstd::multiset::group_multiset_axioms;

            vstd::seq_lib::to_multiset_build::<LogFileInfo>(prev_out, e);
            vstd::seq_lib::to_multiset_remove::<LogFileInfo>(prev_rem, mi as int);
            assert(out@ == prev_out.push(e));
            assert(rem@ == prev_rem.remove(mi as int));
            assert(out@.to_multiset() =~= prev_out.to_multiset().insert(e));
            assert(rem@.to_multiset() =~= prev_rem.to_multiset().remove(e));
            assert(prev_rem.to_multiset().count(e) > 0) by {
                assert(prev_rem[mi as int] == e);
                assert(prev_rem.contains(e));
                vstd::seq_lib::to_multiset_contains::<LogFileInfo>(prev_rem, e);
            }
            assert(out@.to_multiset().add(rem@.to_multiset()) =~= prev_out.to_multiset().add(
                prev_rem.to_multiset(),
            ));
            assert(forall|j: int|
                0 <= j < rem@.len() ==> #[trigger] rem@[j].modified_epoch <= e.modified_epoch);
        }
    }
    proof {
        assert(rem@.to_multiset() =~= Multiset::<LogFileInfo>::empty());
        assert(out@.to_multiset().add(Multiset::<LogFileInfo>::empty()) =~= out@.to_multiset());
    }
    out
}

} // verus!
