//! Reading the system clock as milliseconds since an epoch.
use std::time::{Duration, SystemTime, SystemTimeError};
use vstd::prelude::*;

verus! {

#[verifier::external_type_specification]
#[verifier::external_body]
pub struct ExSystemTime(SystemTime);

#[verifier::external_type_specification]
#[verifier::external_body]
pub struct ExSystemTimeError(SystemTimeError);

/// Relies on SystemTime::now to read the system clock. Nothing is known of
/// the reading: the clock may stand still or go back.
pub assume_specification[ SystemTime::now ]() -> SystemTime;

/// Relies on SystemTime::duration_since to measure the time from `earlier`
/// to `t`; it fails when `earlier` is later than `t`. Which of the two comes
/// back depends on the clock.
pub assume_specification[ SystemTime::duration_since ](
    t: &SystemTime,
    earlier: SystemTime,
) -> Result<Duration, SystemTimeError>;

/// Relies on Duration::as_millis for the whole milliseconds of a duration.
pub assume_specification[ Duration::as_millis ](d: &Duration) -> u128;

/// Relies on std::hint::spin_loop to tell the processor that the caller is
/// busy-waiting. It has no effect that the logic can see.
pub assume_specification[ std::hint::spin_loop ]();

/// Relies on std::time::UNIX_EPOCH for the default epoch.
#[verifier::external_body]
pub(crate) fn unix_epoch() -> (r: SystemTime) {
    std::time::UNIX_EPOCH
}

/// A count of milliseconds as an `i64`, or `None` when it does not fit.
pub fn millis_in_i64(millis: u128) -> (r: Option<i64>)
    ensures
        r == (if millis <= i64::MAX as u128 {
            Some(millis as i64)
        } else {
            None
        }),
{
    if millis <= i64::MAX as u128 {
        Some(millis as i64)
    } else {
        None
    }
}

/// Milliseconds from `epoch` to now, or `None` when the clock cannot be read
/// as such: it reads a time before `epoch`, or one too far after it for an
/// `i64` (see `millis_in_i64`). A reading is never negative.
pub fn get_time_millis(epoch: SystemTime) -> (r: Option<i64>)
    ensures
        r matches Some(t) ==> t >= 0,
{
    let now = SystemTime::now();
    match now.duration_since(epoch) {
        Ok(elapsed) => millis_in_i64(elapsed.as_millis()),
        Err(_) => None,
    }
}

/// Most readings that the busy-wait takes before it gives up: at a billion
/// readings a second, some five centuries of waiting.
pub const MAX_POLLS: u64 = 0xffff_ffff_ffff_ffff;

/// Busy-waits until the clock reads a time after `floor`, and returns that
/// reading. `None` when a reading fails, or when the clock has not passed
/// `floor` after `MAX_POLLS` readings.
pub(crate) fn biding_time_conditions(floor: i64, epoch: SystemTime) -> (r: Option<i64>)
    ensures
        r matches Some(t) ==> t > floor,
{
    let mut polls: u64 = 0;
    while polls < MAX_POLLS
        invariant
            polls <= MAX_POLLS,
        decreases MAX_POLLS - polls,
    {
        match get_time_millis(epoch) {
            Some(now) => {
                if now > floor {
                    return Some(now);
                }
            },
            None => {
                return None;
            },
        }
        std::hint::spin_loop();
        polls = polls + 1;
    }
    None
}

} // verus!
