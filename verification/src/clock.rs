//! The wall clock.

use vstd::prelude::*;
use std::time::{Duration, SystemTime};

verus! {

/// A point in time as the system clock tells it.
#[verifier::external_type_specification]
#[verifier::external_body]
pub struct ExSystemTime(std::time::SystemTime);

/// The present moment, read by `std::time::SystemTime::now`.
///
/// Trusted, with nothing claimed: the result differs from call to call.
#[verifier::external_body]
fn system_now() -> (moment: SystemTime) {
    SystemTime::now()
}

/// The time elapsed from the start of 1970 to `moment`, by
/// `SystemTime::duration_since` with `UNIX_EPOCH`; `None` where `moment`
/// lies before that start.
///
/// Trusted, with nothing claimed of the duration.
#[verifier::external_body]
fn since_epoch(moment: &SystemTime) -> (elapsed: Option<Duration>) {
    moment.duration_since(std::time::UNIX_EPOCH).ok()
}

/// The whole seconds of a duration, by `Duration::as_secs`.
///
/// Trusted, with nothing claimed of the number.
#[verifier::external_body]
fn whole_seconds(elapsed: &Duration) -> (seconds: u64) {
    elapsed.as_secs()
}

/// What the clock reads for an elapsed time: its whole seconds, and zero
/// where the system clock is set before the start of 1970.
pub open spec fn reading(seconds: Option<u64>) -> u64 {
    match seconds {
        Some(s) => s,
        None => 0,
    }
}

/// The reading for an elapsed time given in whole seconds.
pub fn clock_reading(seconds: Option<u64>) -> (now: u64)
    ensures
        now == reading(seconds),
{
    match seconds {
        Some(s) => s,
        None => 0,
    }
}

/// The number of whole seconds since the start of 1970, or zero where the
/// system clock is set before that.
pub fn current_time_unix() -> (now: u64) {
    let moment = system_now();
    match since_epoch(&moment) {
        Some(elapsed) => clock_reading(Some(whole_seconds(&elapsed))),
        None => clock_reading(None),
    }
}

} // verus!
