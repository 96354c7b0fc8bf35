//! Trusted wrappers around environment queries of outside crates.
//!
//! The results depend on the machine and the moment, so no contract pins
//! them down; callers state what holds of every outcome.

use vstd::prelude::*;

verus! {

/// Relies on dirs::data_dir: the OS user data directory (roaming on
/// Windows), or `None` when the OS reports none.
#[verifier::external_body]
pub fn os_data_dir() -> (r: Option<String>) {
    dirs::data_dir().map(|p| p.to_string_lossy().into_owned())
}

/// Relies on dirs::data_local_dir: the OS user local-data directory, or
/// `None` when the OS reports none.
#[verifier::external_body]
pub fn os_data_local_dir() -> (r: Option<String>) {
    dirs::data_local_dir().map(|p| p.to_string_lossy().into_owned())
}

/// Relies on dirs::cache_dir: the OS user cache directory, or `None` when
/// the OS reports none.
#[verifier::external_body]
pub fn os_cache_dir() -> (r: Option<String>) {
    dirs::cache_dir().map(|p| p.to_string_lossy().into_owned())
}

/// Relies on chrono::Utc::now and DateTime::timestamp: the current time as
/// epoch seconds.  chrono aborts if the system clock reads before the Unix
/// epoch, which no supported platform reports.
#[verifier::external_body]
pub fn utc_now_epoch_seconds() -> (r: i64) {
    chrono::Utc::now().timestamp()
}

/// Relies on chrono::Local::now and DateTime::to_rfc3339: the current
/// local time rendered for a diagnostic report.
#[verifier::external_body]
pub fn local_now_rfc3339() -> (r: String) {
    chrono::Local::now().to_rfc3339()
}

} // verus!
