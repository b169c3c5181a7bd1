use vstd::prelude::*;

use std::time::{Duration, Instant, SystemTime, SystemTimeError};

verus! {

#[verifier::external_type_specification]
#[verifier::external_body]
pub struct ExInstant(Instant);

#[verifier::external_type_specification]
#[verifier::external_body]
pub struct ExSystemTime(SystemTime);

#[verifier::external_type_specification]
#[verifier::external_body]
pub struct ExSystemTimeError(SystemTimeError);

/// Length of a duration in nanoseconds (`Duration::as_nanos`).
pub uninterp spec fn duration_nanos(d: Duration) -> u128;

/// The current instant (`Instant::now`); it depends on the clock, so nothing is stated.
#[verifier::external_body]
pub(crate) fn now() -> Instant {
    Instant::now()
}

/// Time since `i` (`Instant::elapsed`); it depends on the clock, so nothing is stated.
#[verifier::external_body]
pub(crate) fn elapsed_since(i: &Instant) -> Duration {
    i.elapsed()
}

/// Nanoseconds of a duration (`Duration::as_nanos`).
#[verifier::external_body]
pub(crate) fn as_nanos(d: &Duration) -> (n: u128)
    ensures
        n == duration_nanos(*d),
{
    d.as_nanos()
}

/// A duration of `secs` seconds (`Duration::from_secs`).
#[verifier::external_body]
pub(crate) fn from_secs(secs: u64) -> (d: Duration)
    ensures
        duration_nanos(d) == secs as int * 1_000_000_000,
{
    Duration::from_secs(secs)
}

/// A duration of `ms` milliseconds (`Duration::from_millis`).
#[verifier::external_body]
pub(crate) fn from_millis(ms: u64) -> (d: Duration)
    ensures
        duration_nanos(d) == ms as int * 1_000_000,
{
    Duration::from_millis(ms)
}

/// The current system time (`SystemTime::now`); it depends on the clock, so nothing
/// is stated.
#[verifier::external_body]
fn system_now() -> SystemTime {
    SystemTime::now()
}

/// Time from the Unix epoch to `t` (`SystemTime::duration_since` with
/// `UNIX_EPOCH`): an error when `t` is before the epoch. It depends on the clock
/// reading, so nothing is stated.
#[verifier::external_body]
fn since_unix_epoch(t: &SystemTime) -> Result<Duration, SystemTimeError> {
    t.duration_since(std::time::UNIX_EPOCH)
}

/// How far before the epoch the time of a failed `since_unix_epoch` lies
/// (`SystemTimeError::duration`); nothing is stated of it.
#[verifier::external_body]
fn error_duration(e: &SystemTimeError) -> Duration {
    e.duration()
}

/// Seconds since the Unix epoch now, rounded down (negative before the epoch, and
/// held at the ends of `i64` beyond them). It depends on the clock, so nothing is
/// stated of its value.
pub(crate) fn unix_seconds_now() -> i64 {
    let t = system_now();
    match since_unix_epoch(&t) {
        Ok(d) => {
            let secs = as_nanos(&d) / 1_000_000_000;
            if secs > i64::MAX as u128 {
                i64::MAX
            } else {
                secs as i64
            }
        },
        Err(e) => {
            let d = error_duration(&e);
            let nanos = as_nanos(&d);
            let secs = nanos / 1_000_000_000 + if nanos % 1_000_000_000 == 0 {
                0
            } else {
                1
            };
            if secs > i64::MAX as u128 {
                i64::MIN
            } else {
                -(secs as i64)
            }
        },
    }
}

} // verus!
