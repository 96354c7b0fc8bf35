//! Orchestrator summarization scenarios: outcome classification, the
//! success-count invariant, detail lines and the package heuristics.

use rscoop_core::update::{
    bucket_detail_line, bucket_failure_entry, bucket_log_entry, count_updated_lines,
    package_failure_entry, package_log_entry, OperationOutcome, OperationType, UpdateResult,
};

fn result(name: &str, succeeded: bool, message: &str) -> UpdateResult {
    UpdateResult {
        target_name: name.to_string(),
        succeeded,
        message: message.to_string(),
    }
}

#[test]
fn three_results_one_failure_is_partial_two_of_three() {
    let results = vec![
        result("A", true, ""),
        result("B", false, "timeout"),
        result("C", true, ""),
    ];
    let e = bucket_log_entry(&results, 1_700_000_000);
    assert_eq!(e.operation_result, OperationOutcome::Partial);
    assert_eq!(e.success_count, 2);
    assert_eq!(e.total_count, 3);
    assert_eq!(e.details.len(), 3);
    let failure_lines: Vec<&String> =
        e.details.iter().filter(|d| d.starts_with("\u{2717}")).collect();
    assert_eq!(failure_lines.len(), 1);
    assert_eq!(failure_lines[0], "\u{2717} Failed to update B: timeout");
    assert!(e.success_count <= e.total_count);
}

#[test]
fn all_succeeded_is_success() {
    let results = vec![result("A", true, ""), result("B", true, "")];
    let e = bucket_log_entry(&results, 5);
    assert_eq!(e.operation_type, OperationType::Bucket);
    assert_eq!(e.operation_result, OperationOutcome::Success);
    assert_eq!(e.success_count, 2);
    assert_eq!(e.total_count, 2);
    assert_eq!(e.timestamp, 5);
}

#[test]
fn none_succeeded_is_failed() {
    let results = vec![result("A", false, "x"), result("B", false, "y")];
    let e = bucket_log_entry(&results, 5);
    assert_eq!(e.operation_result, OperationOutcome::Failed);
    assert_eq!(e.success_count, 0);
    assert_eq!(e.total_count, 2);
}

#[test]
fn empty_run_is_recorded_as_one_of_one() {
    let results: Vec<UpdateResult> = vec![];
    let e = bucket_log_entry(&results, 5);
    assert_eq!(e.operation_result, OperationOutcome::Success);
    assert_eq!(e.success_count, 1);
    assert_eq!(e.total_count, 1);
    assert!(e.details.is_empty());
    assert!(e.success_count <= e.total_count);
}

#[test]
fn detail_lines_carry_name_and_message() {
    let ok = bucket_detail_line(&result("main", true, ""));
    assert_eq!(ok, "\u{2713} Updated bucket: main");
    let bad = bucket_detail_line(&result("extras", false, "network error"));
    assert_eq!(bad, "\u{2717} Failed to update extras: network error");
}

#[test]
fn bucket_collaborator_failure_entry() {
    let e = bucket_failure_entry("connection refused", 9);
    assert_eq!(e.operation_type, OperationType::Bucket);
    assert_eq!(e.operation_result, OperationOutcome::Failed);
    assert_eq!(e.success_count, 0);
    assert_eq!(e.total_count, 1);
    assert_eq!(e.details, vec!["Error: connection refused".to_string()]);
    assert!(e.success_count <= e.total_count);
}

#[test]
fn updated_line_heuristic() {
    let lines = vec![
        "Updated 7zip to 23.01".to_string(),
        "git is already up to date".to_string(),
        "Updated ripgrep".to_string(),
        "nothing to report".to_string(),
    ];
    assert_eq!(count_updated_lines(&lines), 2);
}

#[test]
fn package_entry_counts_updates() {
    let lines = vec![
        "Updated 7zip".to_string(),
        "git is already up to date".to_string(),
    ];
    let e = package_log_entry(lines.clone(), 11);
    assert_eq!(e.operation_type, OperationType::Package);
    assert_eq!(e.operation_result, OperationOutcome::Success);
    assert_eq!(e.success_count, 1);
    assert_eq!(e.total_count, 2);
    assert_eq!(e.details, lines);
    assert!(e.success_count <= e.total_count);
}

#[test]
fn package_entry_with_no_updates_counts_zero() {
    let lines = vec!["everything up to date".to_string()];
    let e = package_log_entry(lines, 11);
    assert_eq!(e.success_count, 0);
    assert_eq!(e.total_count, 1);

    // An empty run still records one target, never zero of zero.
    let e = package_log_entry(Vec::new(), 11);
    assert_eq!(e.success_count, 0);
    assert_eq!(e.total_count, 1);
    assert!(e.success_count <= e.total_count);
}

#[test]
fn package_collaborator_failure_entry() {
    let e = package_failure_entry("spawn failed", 12);
    assert_eq!(e.operation_type, OperationType::Package);
    assert_eq!(e.operation_result, OperationOutcome::Failed);
    assert_eq!(e.success_count, 0);
    assert_eq!(e.total_count, 1);
    assert_eq!(e.details, vec!["Error: spawn failed".to_string()]);
}

#[test]
fn labels_are_stable() {
    assert_eq!(OperationType::Bucket.label(), "bucket");
    assert_eq!(OperationType::Package.label(), "package");
    assert_eq!(OperationOutcome::Success.label(), "success");
    assert_eq!(OperationOutcome::Partial.label(), "partial");
    assert_eq!(OperationOutcome::Failed.label(), "failed");
}
