//! The time of the machine, in seconds since the Unix epoch.

use vstd::prelude::*;

verus! {

/// The error with which `std::time` tells that one time lies before
/// another.
#[verifier::external_type_specification]
#[verifier::external_body]
pub struct ExSystemTimeError(std::time::SystemTimeError);

/// Calls `std::time::SystemTime::elapsed` on the Unix epoch: the time
/// that has passed since the epoch, or an error when the clock stands
/// before it. Nothing is claimed of the result.
#[verifier::external_body]
fn since_unix_epoch() -> (elapsed: Result<std::time::Duration, std::time::SystemTimeError>) {
    std::time::UNIX_EPOCH.elapsed()
}

/// Calls `std::time::SystemTimeError::duration`: how far before the other
/// time the clock stood. Nothing is claimed of the result.
#[verifier::external_body]
fn distance(error: &std::time::SystemTimeError) -> (before: std::time::Duration) {
    error.duration()
}

/// Calls `std::time::Duration::as_secs`: the whole seconds of a duration.
/// Nothing is claimed of the result.
#[verifier::external_body]
fn whole_seconds(duration: &std::time::Duration) -> (seconds: u64) {
    duration.as_secs()
}

/// The timestamp that lies `seconds` after the epoch, or before it: the
/// number itself or its negative, and the largest or smallest timestamp
/// where no `i64` holds it.
pub open spec fn spec_timestamp(seconds: u64, after_epoch: bool) -> i64 {
    if after_epoch {
        if seconds <= i64::MAX {
            seconds as i64
        } else {
            i64::MAX
        }
    } else {
        if seconds <= i64::MAX {
            (-(seconds as int)) as i64
        } else {
            i64::MIN
        }
    }
}

/// Returns the timestamp that lies `seconds` after the epoch, or before it
/// where `after_epoch` is false.
pub fn timestamp(seconds: u64, after_epoch: bool) -> (stamp: i64)
    ensures
        stamp == spec_timestamp(seconds, after_epoch),
        after_epoch ==> stamp >= 0,
        !after_epoch ==> stamp <= 0,
{
    if seconds > 9_223_372_036_854_775_807u64 {
        if after_epoch {
            i64::MAX
        } else {
            i64::MIN
        }
    } else {
        let magnitude = seconds as i64;
        if after_epoch {
            magnitude
        } else {
            -magnitude
        }
    }
}

/// Reads the clock of the machine and returns its time in whole seconds
/// since the Unix epoch: negative where the clock stands before the
/// epoch. What the clock shows is not known in advance.
pub fn unix_timestamp() -> (now: i64) {
    match since_unix_epoch() {
        Ok(elapsed) => timestamp(whole_seconds(&elapsed), true),
        Err(error) => timestamp(whole_seconds(&distance(&error)), false),
    }
}

} // verus!
