//! Reading the wall clock, in milliseconds since the Unix epoch.
//!
//! The clock is the one input of the breaker that no contract can predict: the
//! functions here promise nothing of the value they read, and every function of
//! the breaker that depends on time takes the time as an argument as well.
use std::time::{Duration, SystemTime};
use vstd::prelude::*;

verus! {

#[verifier::external_type_specification]
#[verifier::external_body]
pub struct ExSystemTime(SystemTime);

/// The number of whole milliseconds in a `Duration`, as `Duration::as_millis`
/// computes it.
pub uninterp spec fn duration_millis(d: Duration) -> u128;

/// Calls `SystemTime::now`. What it returns depends on the machine's clock, so
/// nothing is stated of it.
#[verifier::external_body]
fn system_time_now() -> SystemTime {
    SystemTime::now()
}

/// Calls `SystemTime::duration_since(UNIX_EPOCH)`; its error (a clock set
/// before the epoch) becomes `None`. Nothing is stated of the duration, which
/// depends on an opaque `SystemTime`.
#[verifier::external_body]
fn duration_since_unix_epoch(t: &SystemTime) -> Option<Duration> {
    match t.duration_since(std::time::UNIX_EPOCH) {
        Ok(d) => Some(d),
        Err(_) => None,
    }
}

/// Calls `Duration::as_millis`: the result is the whole number of milliseconds
/// in `d`, named `duration_millis(d)`.
#[verifier::external_body]
pub(crate) fn duration_as_millis(d: &Duration) -> (r: u128)
    ensures
        r == duration_millis(*d),
{
    d.as_millis()
}

/// The whole milliseconds in `d`, held at `u64::MAX`.
pub open spec fn millis_of(d: Duration) -> u64 {
    if duration_millis(d) > u64::MAX as u128 {
        u64::MAX
    } else {
        duration_millis(d) as u64
    }
}

/// The millisecond count of a duration since the epoch, held at `u64::MAX`,
/// or `0` where there is none (a clock set before the epoch).
pub fn millis_since_epoch(since: Option<Duration>) -> (r: u64)
    ensures
        r == match since {
            Some(d) => millis_of(d),
            None => 0,
        },
{
    match since {
        Some(d) => {
            let ms = duration_as_millis(&d);
            if ms > u64::MAX as u128 {
                u64::MAX
            } else {
                ms as u64
            }
        },
        None => 0,
    }
}

/// Whether `t` is a value the wall clock can be read as: `0` (a clock set
/// before the epoch) or the millisecond count of some duration since the epoch.
pub open spec fn is_clock_reading(t: u64) -> bool {
    t == 0 || exists|d: Duration| t == #[trigger] millis_of(d)
}

/// Milliseconds since the Unix epoch on the wall clock, held at `u64::MAX`;
/// `0` when the clock is set before the epoch. The result is
/// `millis_since_epoch` of the duration the clock reports since the epoch;
/// which duration that is, no contract can state.
pub fn now_millis() -> (r: u64)
    ensures
        r == 0 || exists|d: Duration| r == #[trigger] millis_of(d),
        is_clock_reading(r),
{
    let now = system_time_now();
    millis_since_epoch(duration_since_unix_epoch(&now))
}

} // verus!
