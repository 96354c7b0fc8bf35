//! Text utilities, cleanup planning, registry planning, operations, the
//! cache slot, the factory-reset coordinator and diagnostics.

use rscoop_core::cache::{CacheSlot, InstalledPackageCache, PackageRecord};
use rscoop_core::cleanup::{
    force_cleanup_command, plan_cache_cleanup, plan_cleanup_all_apps, regular_package_names,
    CleanupPlan,
};
use rscoop_core::diagnostics::{
    build_debug_report, filter_log_files, get_log_retention_days, log_file_missing_message,
    set_log_retention_days, sort_newest_first, LogFileInfo,
};
use rscoop_core::factory::{factory_reset_outcome, marker_create_outcome, summarize_store_sweep};
use rscoop_core::ops::{operation_id, ScoopOp};
use rscoop_core::reclaim::SweepEntry;
use rscoop_core::registry::{
    current_user_subkey, local_machine_subkey, reg_delete_args, registry_cleanup_keys,
};
use rscoop_core::text::{
    parse_u64, str_contains, str_eq, str_has_prefix, str_has_suffix, str_strip_prefix,
    u64_to_string,
};

fn pkg(name: &str, versioned: bool) -> PackageRecord {
    PackageRecord { name: name.to_string(), is_versioned_install: versioned }
}

#[test]
fn text_primitives() {
    assert!(str_eq("abc", "abc"));
    assert!(!str_eq("abc", "abd"));
    assert!(!str_eq("abc", "ab"));
    assert!(str_contains("hello world", "lo wo"));
    assert!(str_contains("hello", ""));
    assert!(!str_contains("hello", "world"));
    assert!(str_has_prefix("custom:12", "custom:"));
    assert!(!str_has_prefix("custo", "custom:"));
    assert!(str_has_suffix("error.log", ".log"));
    assert!(!str_has_suffix("log", ".log"));
    assert_eq!(str_strip_prefix("custom:12", "custom:"), "12");
    assert_eq!(str_strip_prefix("plain", "custom:"), "plain");
}

#[test]
fn decimal_round_trip_values() {
    assert_eq!(u64_to_string(0), "0");
    assert_eq!(u64_to_string(7), "7");
    assert_eq!(u64_to_string(21600), "21600");
    assert_eq!(u64_to_string(u64::MAX), "18446744073709551615");
    assert_eq!(parse_u64("0"), Some(0));
    assert_eq!(parse_u64("21600"), Some(21600));
    assert_eq!(parse_u64("+42"), Some(42));
    assert_eq!(parse_u64("18446744073709551615"), Some(u64::MAX));
    assert_eq!(parse_u64("18446744073709551616"), None);
    assert_eq!(parse_u64(""), None);
    assert_eq!(parse_u64("+"), None);
    assert_eq!(parse_u64("12a"), None);
    assert_eq!(parse_u64("-1"), None);
}

#[test]
fn cleanup_plan_standard_when_nothing_versioned() {
    let packages = vec![pkg("git", false), pkg("7zip", false)];
    match plan_cleanup_all_apps(&packages) {
        CleanupPlan::Run { command } => assert_eq!(command, "scoop cleanup --all"),
        _ => panic!("expected a command"),
    }
}

#[test]
fn cleanup_plan_selective_with_versioned_installs() {
    let packages = vec![pkg("git", false), pkg("node@18", true), pkg("7zip", false)];
    match plan_cleanup_all_apps(&packages) {
        CleanupPlan::Run { command } => assert_eq!(command, "scoop cleanup git 7zip"),
        _ => panic!("expected a command"),
    }
}

#[test]
fn cleanup_plan_no_action_when_all_versioned() {
    let packages = vec![pkg("node@18", true)];
    assert!(matches!(plan_cleanup_all_apps(&packages), CleanupPlan::NoActionNeeded));
    assert!(matches!(plan_cache_cleanup(&packages), CleanupPlan::NoActionNeeded));
}

#[test]
fn cache_cleanup_plan_appends_cache_flag() {
    let packages = vec![pkg("git", false), pkg("node@18", true)];
    match plan_cache_cleanup(&packages) {
        CleanupPlan::Run { command } => assert_eq!(command, "scoop cleanup git --cache"),
        _ => panic!("expected a command"),
    }
    assert_eq!(force_cleanup_command(), "scoop cleanup --all");
    assert_eq!(
        regular_package_names(&packages),
        vec!["git".to_string()]
    );
}

#[test]
fn registry_planning() {
    let keys = registry_cleanup_keys();
    assert_eq!(keys.len(), 4);
    assert_eq!(keys[0], "HKEY_CURRENT_USER\\Software\\com.rscoop.app");
    assert_eq!(
        keys[3],
        "HKEY_LOCAL_MACHINE\\SOFTWARE\\Microsoft\\Windows\\CurrentVersion\\Uninstall\\Rscoop"
    );
    assert_eq!(
        reg_delete_args(&keys[1]),
        vec!["delete".to_string(), keys[1].clone(), "/f".to_string()]
    );
    assert_eq!(
        current_user_subkey("HKEY_CURRENT_USER\\Software\\Rscoop"),
        "Software\\Rscoop"
    );
    assert_eq!(
        current_user_subkey("HKEY_LOCAL_MACHINE\\SOFTWARE\\X"),
        "HKEY_LOCAL_MACHINE\\SOFTWARE\\X"
    );
    assert_eq!(
        local_machine_subkey("HKEY_LOCAL_MACHINE\\SOFTWARE\\X"),
        "SOFTWARE\\X"
    );
}

#[test]
fn operation_labels_and_ids() {
    assert_eq!(ScoopOp::Install.gerund(), "installing");
    assert_eq!(ScoopOp::Uninstall.gerund(), "uninstalling");
    assert_eq!(ScoopOp::ClearCache.gerund(), "clearing cache for");
    assert_eq!(ScoopOp::Uninstall.key(), "uninstall");
    assert_eq!(ScoopOp::UpdateForce.key(), "force-update");
    assert_eq!(
        operation_id(&ScoopOp::Uninstall, "7zip", 1700000000),
        "uninstall-7zip-1700000000"
    );
    assert_eq!(
        operation_id(&ScoopOp::ClearCache, "git", 42),
        "clear-cache-git-42"
    );
}

#[test]
fn cache_slot_invalidation_is_whole() {
    let mut slot = CacheSlot::new();
    assert!(slot.read().is_none());
    let snapshot = InstalledPackageCache {
        packages: vec![pkg("git", false), pkg("7zip", false)],
        fingerprint: "abc123".to_string(),
    };
    slot.store(snapshot);
    assert!(slot.read().is_some());
    let (count, fp) = slot.summary();
    assert_eq!(count, 2);
    assert_eq!(fp, Some("abc123".to_string()));
    slot.invalidate();
    assert!(slot.read().is_none());
    let (count, fp) = slot.summary();
    assert_eq!(count, 0);
    assert_eq!(fp, None);
}

#[test]
fn store_sweep_summary_counts_and_failures() {
    let entries = vec![
        SweepEntry { path: "/d/settings.dat".to_string(), is_dir: false, removed: true },
        SweepEntry { path: "/d/signals.dat".to_string(), is_dir: false, removed: false },
        SweepEntry { path: "/d/version.txt".to_string(), is_dir: false, removed: true },
    ];
    let s = summarize_store_sweep(entries);
    assert_eq!(s.cleared, 2);
    assert_eq!(s.failed, vec!["/d/signals.dat".to_string()]);
}

#[test]
fn marker_outcomes() {
    assert_eq!(marker_create_outcome(true, &None, &None), Ok(()));
    assert_eq!(
        marker_create_outcome(false, &None, &None),
        Err("Could not determine app data directory".to_string())
    );
    assert_eq!(
        marker_create_outcome(true, &Some("denied".to_string()), &None),
        Err("Failed to create directory for marker: denied".to_string())
    );
    assert_eq!(
        marker_create_outcome(true, &None, &Some("disk full".to_string())),
        Err("Failed to create factory reset marker: disk full".to_string())
    );
}

#[test]
fn factory_reset_fatal_only_on_marker_failure() {
    assert_eq!(factory_reset_outcome(Ok(3), Ok(2), Ok(()), Ok(())), Ok(()));
    assert_eq!(
        factory_reset_outcome(Ok(3), Ok(2), Err("marker failed".to_string()), Ok(())),
        Err("marker failed".to_string())
    );
    assert_eq!(
        factory_reset_outcome(Err("no data dir".to_string()), Ok(0), Ok(()), Ok(())),
        Err("no data dir".to_string())
    );
}

#[test]
fn diagnostics_report_and_log_listing() {
    let cache = Some(InstalledPackageCache {
        packages: vec![pkg("git", false)],
        fingerprint: "fp".to_string(),
    });
    let r = build_debug_report("2024-01-01T00:00:00Z".to_string(), "/scoop".to_string(), true, 5, &cache);
    assert_eq!(r.cached_count, 1);
    assert_eq!(r.fingerprint, Some("fp".to_string()));
    assert_eq!(r.app_count, 5);
    let r = build_debug_report("t".to_string(), "/scoop".to_string(), false, 0, &None);
    assert_eq!(r.cached_count, 0);
    assert_eq!(r.fingerprint, None);

    assert_eq!(get_log_retention_days(), Ok(7));
    assert_eq!(set_log_retention_days(30), Ok(()));
    assert_eq!(
        log_file_missing_message("/x/a.log"),
        "Log file not found at: /x/a.log\n\nLogs will be created after the first run."
    );

    let files = vec![
        LogFileInfo { path: "/l/a.log".to_string(), size: 10, modified_epoch: 100 },
        LogFileInfo { path: "/l/notes.txt".to_string(), size: 3, modified_epoch: 400 },
        LogFileInfo { path: "/l/b.log".to_string(), size: 20, modified_epoch: 300 },
        LogFileInfo { path: "/l/c.log".to_string(), size: 30, modified_epoch: 200 },
    ];
    let logs = filter_log_files(files);
    assert_eq!(logs.len(), 3);
    let sorted = sort_newest_first(logs);
    let order: Vec<&str> = sorted.iter().map(|f| f.path.as_str()).collect();
    assert_eq!(order, vec!["/l/b.log", "/l/c.log", "/l/a.log"]);
}
