//! The wall clock, in whole seconds since the Unix epoch.

use vstd::prelude::*;
use std::time::{Duration, SystemTime, SystemTimeError, UNIX_EPOCH};

verus! {

#[verifier::external_type_specification]
#[verifier::external_body]
pub struct ExSystemTime(SystemTime);

#[verifier::external_type_specification]
#[verifier::external_body]
pub struct ExSystemTimeError(SystemTimeError);

/// `SystemTime::now` reads the system clock; nothing is known of the reading.
pub assume_specification[ SystemTime::now ]() -> (t: SystemTime);

/// `SystemTime::duration_since` measures from `earlier` to `t`, and fails when
/// `t` is the earlier of the two; nothing is known of the answer.
pub assume_specification[ SystemTime::duration_since ](t: &SystemTime, earlier: SystemTime) -> (r:
    Result<Duration, SystemTimeError>);

/// `Duration::as_secs` gives the whole seconds of a duration; nothing is
/// known of the number.
pub assume_specification[ Duration::as_secs ](d: &Duration) -> (secs: u64);

/// `std::time::UNIX_EPOCH`, the instant from which the seconds are counted.
#[verifier::external_body]
fn unix_epoch() -> (epoch: SystemTime) {
    UNIX_EPOCH
}

/// The current time in seconds since the Unix epoch.
///
/// A clock that stands before the epoch, or past what `usize` can count,
/// reads as `usize::MAX`: at that reading no token can be issued and every
/// token that carries an earlier expiry has expired.
pub fn current_time() -> (now: usize) {
    match SystemTime::now().duration_since(unix_epoch()) {
        Ok(elapsed) => time_from_reading(Some(elapsed.as_secs())),
        Err(_) => time_from_reading(None),
    }
}

/// The time that a reading of the clock stands for: its seconds, held at
/// `usize::MAX` where they are more than `usize` can count or where the clock
/// stands before the epoch and gives none.
pub open spec fn time_of_reading(reading: Option<u64>) -> usize {
    match reading {
        Some(secs) => if secs > usize::MAX {
            usize::MAX
        } else {
            secs as usize
        },
        None => usize::MAX,
    }
}

/// The time that a reading of the clock stands for.
pub fn time_from_reading(reading: Option<u64>) -> (now: usize)
    ensures
        now == time_of_reading(reading),
{
    match reading {
        Some(secs) => {
            if secs > usize::MAX as u64 {
                usize::MAX
            } else {
                secs as usize
            }
        },
        None => usize::MAX,
    }
}

} // verus!
