//! The interval scheduler's per-iteration decision and its persisted state.
//!
//! The perpetual loop itself suspends and performs settings reads outside
//! this crate; each iteration hands the values it read to `scheduler_decide`
//! and obeys the returned decision, so the when-to-run policy is fully
//! verified here.

use vstd::prelude::*;
use crate::interval::{spec_parse_interval, parse_interval, spec_interval_seconds, IntervalSetting};

verus! {

/// Configuration derived from settings storage each loop iteration.
#[derive(Clone, Copy, PartialEq, Eq, Debug, Structural)]
pub struct ScheduleConfig {
    pub interval: IntervalSetting,
    pub silent_mode: bool,
    pub chain_package_update: bool,
}

/// The single persisted scheduler field.  `0` means "never run"; a never-run
/// state is treated as immediately due.
#[derive(Clone, Copy, PartialEq, Eq, Debug, Structural)]
pub struct ScheduleState {
    pub last_run_epoch_seconds: u64,
}

/// What one scheduler iteration does next.
#[derive(Clone, Copy, PartialEq, Eq, Debug, Structural)]
pub enum SchedulerDecision {
    /// The interval is off: re-poll the configuration after a short sleep.
    PollAgain { sleep_seconds: u64 },
    /// A run is due now; `run_started_at` is the timestamp to persist after
    /// the attempt.
    Run { run_started_at: u64 },
    /// Not due yet: sleep, capped so configuration changes are noticed.
    Sleep { sleep_seconds: u64 },
}

/// Seconds elapsed since the last run: a never-run state counts as exactly
/// one whole interval, and a clock that moved backwards counts as zero.
pub open spec fn spec_elapsed(interval: u64, last: u64, now: u64) -> u64 {
    if last == 0 {
        interval
    } else if now >= last {
        (now - last) as u64
    } else {
        0
    }
}

/// The scheduler's decision table over the parsed interval, the persisted
/// timestamp and the current time.
pub open spec fn spec_decide(setting: IntervalSetting, last: u64, now: u64) -> SchedulerDecision {
    match spec_interval_seconds(setting) {
        Option::None => SchedulerDecision::PollAgain { sleep_seconds: 30 },
        Option::Some(iv) => {
            let elapsed = spec_elapsed(iv, last, now);
            if elapsed >= iv {
                SchedulerDecision::Run { run_started_at: now }
            } else {
                let remaining = (iv - elapsed) as u64;
                SchedulerDecision::Sleep {
                    sleep_seconds: if remaining <= 3600 {
                        remaining
                    } else {
                        3600
                    },
                }
            }
        },
    }
}

/// Derives the loop configuration from raw settings values, falling back to
/// safe defaults: a missing interval reads as `off`, missing flags as false.
pub fn config_from_settings(
    interval_raw: &Option<String>,
    silent: Option<bool>,
    chain: Option<bool>,
) -> (c: ScheduleConfig)
    ensures
        c.interval == (match interval_raw {
            Option::Some(s) => spec_parse_interval(s@),
            Option::None => IntervalSetting::Off,
        }),
        c.silent_mode == (silent == Some(true)),
        c.chain_package_update == (chain == Some(true)),
{
    let interval = match interval_raw {
        Option::Some(s) => parse_interval(s.as_str()),
        Option::None => IntervalSetting::Off,
    };
    let silent_mode = match silent {
        Option::Some(b) => b,
        Option::None => false,
    };
    let chain_package_update = match chain {
        Option::Some(b) => b,
        Option::None => false,
    };
    ScheduleConfig { interval, silent_mode, chain_package_update }
}

/// Decides what this scheduler iteration does, per the decision table: off
/// means a 30-second re-poll, a due run starts now, and anything else sleeps
/// for the remaining time capped at one hour.
pub fn scheduler_decide(setting: &IntervalSetting, state: &ScheduleState, now: u64) -> (d:
    SchedulerDecision)
    ensures
        d == spec_decide(*setting, state.last_run_epoch_seconds, now),
{
    match setting.seconds() {
        Option::None => SchedulerDecision::PollAgain { sleep_seconds: 30 },
        Option::Some(iv) => {
            let last = state.last_run_epoch_seconds;
            let elapsed: u64 = if last == 0 {
                iv
            } else if now >= last {
                now - last
            } else {
                0
            };
            if elapsed >= iv {
                SchedulerDecision::Run { run_started_at: now }
            } else {
                let remaining = iv - elapsed;
                SchedulerDecision::Sleep {
                    sleep_seconds: if remaining <= 3600 {
                        remaining
                    } else {
                        3600
                    },
                }
            }
        },
    }
}

impl ScheduleState {
    /// Records a run attempt: the persisted timestamp becomes the time
    /// captured when the run started, for success and failure alike, so a
    /// failing run is not retried in a storm.
    pub fn record_run_attempt(&mut self, run_started_at: u64, succeeded: bool)
        ensures
            final(self).last_run_epoch_seconds == run_started_at,
    {
        self.last_run_epoch_seconds = run_started_at;
    }
}

/// With a configured interval, the scheduler runs on an iteration exactly
/// when the elapsed time has reached the interval; with none it only
/// re-polls.
pub proof fn lemma_due_iff_run(setting: IntervalSetting, last: u64, now: u64)
    ensures
        match spec_interval_seconds(setting) {
            Option::Some(iv) => (spec_decide(setting, last, now) is Run <==> spec_elapsed(
                iv,
                last,
                now,
            ) >= iv),
            Option::None => spec_decide(setting, last, now) is PollAgain,
        },
{
}

/// After a run attempt is recorded, success or failure, re-reading with
/// the same or a later clock finds the run not due again until a whole
/// interval has elapsed since the recorded start: failures cause no retry
/// storm.  A start captured at epoch second zero is excluded, since zero
/// is the never-run sentinel.
pub proof fn lemma_no_retry_storm(setting: IntervalSetting, run_started_at: u64, now: u64, iv: u64)
    requires
        spec_interval_seconds(setting) == Some(iv),
        run_started_at >= 1,
        run_started_at <= now < run_started_at + iv,
    ensures
        !(spec_decide(setting, run_started_at, now) is Run),
{
}

/// A never-run state (`last == 0`) is due immediately, whatever the
/// configured interval.
pub proof fn lemma_never_run_is_due(setting: IntervalSetting, now: u64)
    requires
        spec_interval_seconds(setting) is Some,
    ensures
        spec_decide(setting, 0, now) is Run,
{
}

} // verus!
