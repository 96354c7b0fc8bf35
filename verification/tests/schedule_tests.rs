//! Scheduler decision scenarios: due and not-due iterations, the never-run
//! state, the off re-poll, the sleep cap and timestamp recording.

use rscoop_core::interval::{parse_interval, IntervalSetting};
use rscoop_core::schedule::{
    config_from_settings, scheduler_decide, ScheduleState, SchedulerDecision,
};

#[test]
fn six_hours_elapsed_21700_runs_immediately() {
    let setting = parse_interval("6h");
    assert_eq!(setting, IntervalSetting::FixedSeconds(21600));
    let now: u64 = 1_700_000_000;
    let state = ScheduleState { last_run_epoch_seconds: now - 21700 };
    let d = scheduler_decide(&setting, &state, now);
    assert_eq!(d, SchedulerDecision::Run { run_started_at: now });
}

#[test]
fn not_due_sleeps_for_remaining_time() {
    let setting = IntervalSetting::FixedSeconds(3600);
    let now: u64 = 1_700_000_000;
    let state = ScheduleState { last_run_epoch_seconds: now - 1000 };
    let d = scheduler_decide(&setting, &state, now);
    assert_eq!(d, SchedulerDecision::Sleep { sleep_seconds: 2600 });
}

#[test]
fn exactly_due_runs() {
    let setting = IntervalSetting::FixedSeconds(3600);
    let now: u64 = 1_700_000_000;
    let state = ScheduleState { last_run_epoch_seconds: now - 3600 };
    let d = scheduler_decide(&setting, &state, now);
    assert_eq!(d, SchedulerDecision::Run { run_started_at: now });
}

#[test]
fn never_run_is_immediately_due() {
    let now: u64 = 1_700_000_000;
    let state = ScheduleState { last_run_epoch_seconds: 0 };
    let d = scheduler_decide(&IntervalSetting::FixedSeconds(604800), &state, now);
    assert_eq!(d, SchedulerDecision::Run { run_started_at: now });
    let d = scheduler_decide(&IntervalSetting::CustomSeconds(5), &state, now);
    assert_eq!(d, SchedulerDecision::Run { run_started_at: now });
}

#[test]
fn off_polls_again_after_thirty_seconds() {
    let state = ScheduleState { last_run_epoch_seconds: 12345 };
    let d = scheduler_decide(&IntervalSetting::Off, &state, 1_700_000_000);
    assert_eq!(d, SchedulerDecision::PollAgain { sleep_seconds: 30 });
}

#[test]
fn long_remaining_time_sleeps_at_most_an_hour() {
    let setting = IntervalSetting::FixedSeconds(604800);
    let now: u64 = 1_700_000_000;
    let state = ScheduleState { last_run_epoch_seconds: now - 10 };
    let d = scheduler_decide(&setting, &state, now);
    assert_eq!(d, SchedulerDecision::Sleep { sleep_seconds: 3600 });
}

#[test]
fn clock_moved_backwards_counts_as_nothing_elapsed() {
    let setting = IntervalSetting::FixedSeconds(3600);
    let now: u64 = 1_700_000_000;
    let state = ScheduleState { last_run_epoch_seconds: now + 50 };
    let d = scheduler_decide(&setting, &state, now);
    assert_eq!(d, SchedulerDecision::Sleep { sleep_seconds: 3600 });
}

#[test]
fn run_attempt_records_start_time_on_success_and_failure() {
    let started: u64 = 1_700_000_123;
    let mut state = ScheduleState { last_run_epoch_seconds: 7 };
    state.record_run_attempt(started, true);
    assert_eq!(state.last_run_epoch_seconds, started);

    let mut state = ScheduleState { last_run_epoch_seconds: 7 };
    state.record_run_attempt(started, false);
    assert_eq!(state.last_run_epoch_seconds, started);

    // Re-deciding from the recorded state is stable until the next run.
    let setting = IntervalSetting::FixedSeconds(3600);
    let d1 = scheduler_decide(&setting, &state, started + 10);
    let d2 = scheduler_decide(&setting, &state, started + 10);
    assert_eq!(d1, d2);
    assert_eq!(d1, SchedulerDecision::Sleep { sleep_seconds: 3590 });
}

#[test]
fn config_defaults_are_safe() {
    let c = config_from_settings(&None, None, None);
    assert_eq!(c.interval, IntervalSetting::Off);
    assert!(!c.silent_mode);
    assert!(!c.chain_package_update);

    let c = config_from_settings(&Some("6h".to_string()), Some(true), Some(true));
    assert_eq!(c.interval, IntervalSetting::FixedSeconds(21600));
    assert!(c.silent_mode);
    assert!(c.chain_package_update);

    let c = config_from_settings(&Some("nonsense".to_string()), Some(false), None);
    assert_eq!(c.interval, IntervalSetting::Off);
    assert!(!c.silent_mode);
    assert!(!c.chain_package_update);
}
