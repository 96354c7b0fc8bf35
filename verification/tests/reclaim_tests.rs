//! Reclamation engine scenarios: locked targets are never attempted,
//! retries stop at the fixed bound, and a directory sweep counts cleared
//! files while reporting skipped entries without failing.

use rscoop_core::classify::{
    file_name_of, is_file_locked_by_current_process, is_webview_locked_dir,
    is_webview_locked_file,
};
use rscoop_core::reclaim::{summarize_sweep, sweep_outcome, RemovalTask, SweepEntry};

#[test]
fn locked_webview_file_is_never_attempted() {
    let task = RemovalTask::start_file("C:/Users/a/AppData/Roaming/com.rscoop.app/EBWebView/Default/IndexedDB/file.db");
    assert!(!task.needs_attempt());
    assert!(!task.removed());
}

#[test]
fn locked_webview_dir_is_never_attempted() {
    let task = RemovalTask::start_dir("C:/Users/a/AppData/Roaming/com.rscoop.app/EBWebView/GPUCache");
    assert!(!task.needs_attempt());
    assert!(!task.removed());
}

#[test]
fn reclaimable_file_succeeds_on_first_attempt() {
    let mut task = RemovalTask::start_file("C:/data/plain.txt");
    assert!(task.needs_attempt());
    task.record_attempt(true);
    assert!(!task.needs_attempt());
    assert!(task.removed());
    assert_eq!(task.attempts_made, 1);
}

#[test]
fn reclaimable_file_retried_at_most_three_times() {
    let mut task = RemovalTask::start_file("C:/data/busy.txt");
    let mut attempts = 0;
    while task.needs_attempt() {
        task.record_attempt(false);
        attempts += 1;
    }
    assert_eq!(attempts, 3);
    assert_eq!(task.attempts_made, 3);
    assert!(!task.removed());
}

#[test]
fn failure_then_success_stops_retrying() {
    let mut task = RemovalTask::start_dir("C:/data/subdir");
    assert_eq!(task.retry_delay_ms(), 200);
    task.record_attempt(false);
    assert!(task.needs_attempt());
    task.record_attempt(true);
    assert!(!task.needs_attempt());
    assert!(task.removed());
    assert_eq!(task.attempts_made, 2);
}

#[test]
fn file_retry_delay_is_shorter_than_dir_delay() {
    let f = RemovalTask::start_file("C:/data/a.txt");
    let d = RemovalTask::start_dir("C:/data/b");
    assert_eq!(f.retry_delay_ms(), 100);
    assert_eq!(d.retry_delay_ms(), 200);
}

#[test]
fn sweep_clears_two_files_and_skips_locked_webview_dir() {
    let webview_dir = "C:/Users/a/AppData/Roaming/com.rscoop.app/EBWebView/Local Storage";
    assert!(is_webview_locked_dir(webview_dir));
    let entries = vec![
        SweepEntry { path: "C:/Users/a/AppData/Roaming/com.rscoop.app/cache.json".to_string(), is_dir: false, removed: true },
        SweepEntry { path: webview_dir.to_string(), is_dir: true, removed: false },
        SweepEntry { path: "C:/Users/a/AppData/Roaming/com.rscoop.app/state.json".to_string(), is_dir: false, removed: true },
    ];
    let summary = summarize_sweep(entries);
    assert_eq!(summary.cleared, 2);
    assert_eq!(summary.failed.len(), 1);
    assert_eq!(summary.failed[0], webview_dir);
    assert_eq!(sweep_outcome(&summary), Ok(2));
}

#[test]
fn sweep_skips_file_locked_by_current_process() {
    let entries = vec![
        SweepEntry { path: "C:/dir/settings.dat".to_string(), is_dir: false, removed: true },
        SweepEntry { path: "C:/dir/extra.txt".to_string(), is_dir: false, removed: true },
    ];
    let summary = summarize_sweep(entries);
    // settings.dat is pre-classified as locked: never counted as cleared.
    assert_eq!(summary.cleared, 1);
    assert_eq!(summary.failed, vec!["C:/dir/settings.dat".to_string()]);
}

#[test]
fn sweep_counts_removed_dirs_as_neither_cleared_nor_failed() {
    let entries = vec![
        SweepEntry { path: "C:/dir/sub".to_string(), is_dir: true, removed: true },
    ];
    let summary = summarize_sweep(entries);
    assert_eq!(summary.cleared, 0);
    assert!(summary.failed.is_empty());
}

#[test]
fn trailing_separators_do_not_hide_a_name() {
    assert_eq!(file_name_of("a/b/c.log"), "c.log");
    assert_eq!(file_name_of("a/b/"), "b");
    assert_eq!(file_name_of("a\\b\\\\"), "b");
    assert_eq!(file_name_of("plain"), "plain");
    assert_eq!(file_name_of("//"), "");
    assert_eq!(file_name_of(""), "");
    assert!(is_file_locked_by_current_process("C:/x/settings.dat/"));
    assert!(is_file_locked_by_current_process("C:/x/logs/today.log/"));
}

#[test]
fn classification_rules() {
    assert!(is_file_locked_by_current_process("C:/x/settings.dat"));
    assert!(is_file_locked_by_current_process("C:/x/signals.dat"));
    assert!(is_file_locked_by_current_process("C:/x/version.txt"));
    assert!(is_file_locked_by_current_process("C:/x/.factory_reset"));
    assert!(is_file_locked_by_current_process("C:/x/today.log"));
    assert!(is_file_locked_by_current_process("C:/x/rscoop-helper.bin"));
    assert!(!is_file_locked_by_current_process("C:/x/readme.txt"));
    // The rules look at the file name, not the directories above it.
    assert!(!is_file_locked_by_current_process("C:/rscoop/readme.txt"));

    assert!(is_webview_locked_file("C:/app/EBWebView/Default/shared_proto_db/x"));
    assert!(is_webview_locked_file("C:/app/EBWebView/Default/LOCK"));
    assert!(is_webview_locked_file("C:/app/EBWebView/Default/MANIFEST-000001"));
    assert!(!is_webview_locked_file("C:/app/Other/LOCK"));
    assert!(!is_webview_locked_file("C:/app/EBWebView/Default/data.bin"));

    assert!(is_webview_locked_dir("C:/app/EBWebView/Code Cache"));
    assert!(!is_webview_locked_dir("C:/app/EBWebView/Downloads"));
    assert!(!is_webview_locked_dir("C:/app/Code Cache"));
}
