//! Hand positions for analog clocks, the filter that smooths their motion,
//! and a counter shared by workers.
use std::time::{Duration, SystemTime};
use vstd::prelude::*;

pub mod counter;
pub mod gui_clock;
pub mod pid;
pub mod rust_clock_gui;

verus! {

#[verifier::external_type_specification]
#[verifier::external_body]
pub struct ExSystemTime(SystemTime);

/// Relies on std's `SystemTime::now`: a reading of the system clock, about
/// which nothing is known beforehand.
#[verifier::external_body]
fn system_time_now() -> (r: SystemTime) {
    SystemTime::now()
}

/// Relies on std's `SystemTime::duration_since` with `UNIX_EPOCH`: the span
/// from the epoch to `t`, or `None` where `t` lies before the epoch.
#[verifier::external_body]
fn since_unix_epoch(t: &SystemTime) -> (r: Option<Duration>) {
    t.duration_since(std::time::UNIX_EPOCH).ok()
}

/// Relies on std's `Duration::as_secs`: the whole seconds in `d`.
#[verifier::external_body]
fn whole_seconds(d: &Duration) -> (r: u64) {
    d.as_secs()
}

/// A simple clock.
pub struct Clock;

impl Clock {
    /// The current time as a UNIX timestamp in whole seconds; a system clock
    /// set before 1970 reads as 0.
    pub fn now() -> (r: u64) {
        let t = system_time_now();
        match since_unix_epoch(&t) {
            Some(d) => whole_seconds(&d),
            None => 0,
        }
    }
}

} // verus!
