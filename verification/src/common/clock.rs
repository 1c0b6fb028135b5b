//! The wall clock, in whole seconds since the Unix epoch.

use vstd::prelude::*;

verus! {

/// Wraps `chrono::Utc::now` followed by `timestamp`: the system clock's
/// reading in whole seconds since 1970-01-01 00:00:00 UTC. `Utc::now` panics
/// where the system clock stands before that moment or beyond the dates
/// that chrono can hold. Nothing is claimed of the reading.
#[verifier::external_body]
fn unix_timestamp() -> i64 {
    chrono::Utc::now().timestamp()
}

/// The current time in seconds since the Unix epoch: what the reading of
/// the system clock stands for. It never exceeds `i64::MAX`.
pub fn now() -> (seconds: u64)
    ensures
        exists|reading: i64| seconds == #[trigger] seconds_of(reading),
        seconds <= i64::MAX,
{
    let reading: i64 = unix_timestamp();
    seconds_of_reading(reading)
}

/// The time that a reading of the clock stands for. A reading before the
/// epoch counts as the epoch itself; any other reading is the time.
pub open spec fn seconds_of(reading: i64) -> u64 {
    if reading < 0 {
        0
    } else {
        reading as u64
    }
}

/// The time that a reading of the clock stands for, in seconds since the
/// Unix epoch.
pub fn seconds_of_reading(reading: i64) -> (seconds: u64)
    ensures
        seconds == seconds_of(reading),
        seconds <= i64::MAX,
{
    if reading < 0 {
        0
    } else {
        reading as u64
    }
}

} // verus!
