//! Time, as the standard library reports it, and the wall-clock reading the
//! library stamps its records with.

use std::time::{Duration, Instant, SystemTime};
use vstd::prelude::*;

verus! {

#[verifier::external_type_specification]
#[verifier::external_body]
pub struct ExInstant(std::time::Instant);

#[verifier::external_type_specification]
#[verifier::external_body]
pub struct ExSystemTime(std::time::SystemTime);

/// The duration a number of milliseconds makes.
pub uninterp spec fn spec_duration_from_millis(ms: u64) -> Duration;

/// The whole nanoseconds of a duration.
pub uninterp spec fn spec_duration_nanos(d: Duration) -> u128;

/// Trusted: `Duration::from_millis` builds the duration of `ms`
/// milliseconds; it depends on `ms` alone, and it is `ms` million
/// nanoseconds long.
#[verifier::external_body]
pub(crate) fn duration_from_millis(ms: u64) -> (r: Duration)
    ensures
        r == spec_duration_from_millis(ms),
        spec_duration_nanos(r) == ms as u128 * 1_000_000,
{
    Duration::from_millis(ms)
}

/// Trusted: `Duration::as_nanos`, the whole nanoseconds of `d`; it depends
/// on `d` alone.
#[verifier::external_body]
pub(crate) fn duration_nanos(d: &Duration) -> (r: u128)
    ensures
        r == spec_duration_nanos(*d),
{
    d.as_nanos()
}

/// Trusted: `Instant::now`, the current reading of the monotonic clock.
/// Nothing is promised of the reading.
#[verifier::external_body]
pub(crate) fn instant_now() -> Instant {
    Instant::now()
}

/// Trusted: `Instant::duration_since`, the time from `earlier` to `later`;
/// std saturates it at zero when `earlier` is the later one. The value
/// depends on two clock readings and is not stated.
#[verifier::external_body]
pub(crate) fn instant_since(later: &Instant, earlier: &Instant) -> Duration {
    later.duration_since(*earlier)
}

/// Trusted: `Instant::elapsed`, the time since `start` by the clock now
/// (zero where the clock reads earlier). Nothing is promised of it.
#[verifier::external_body]
pub(crate) fn instant_elapsed(start: &Instant) -> Duration {
    start.elapsed()
}

/// Trusted: `SystemTime::now`, the wall-clock time. Nothing is promised of
/// the reading.
#[verifier::external_body]
pub(crate) fn system_now() -> SystemTime {
    SystemTime::now()
}

/// Trusted: `SystemTime::duration_since`: the time from `earlier` to
/// `later`, or `None` where `earlier` is after `later` (std's error case).
/// The value depends on clock readings and is not stated.
#[verifier::external_body]
pub(crate) fn system_since(later: &SystemTime, earlier: &SystemTime) -> Option<Duration> {
    later.duration_since(*earlier).ok()
}

/// Trusted: `std::time::UNIX_EPOCH`, the start of 1970 in UTC.
#[verifier::external_body]
pub(crate) fn unix_epoch() -> SystemTime {
    std::time::UNIX_EPOCH
}

/// Microseconds in a number of nanoseconds, held inside `i64`.
fn micros_of_nanos(nanos: u128) -> (r: i64)
    ensures
        r as int == if nanos / 1000 > i64::MAX as u128 { i64::MAX as int } else { (nanos / 1000) as int },
{
    let m = nanos / 1000;
    if m > i64::MAX as u128 { i64::MAX } else { m as i64 }
}

/// The wall-clock time in microseconds since the Unix epoch (UTC), negative
/// before it; held inside `i64`. It depends on the clock; nothing is
/// promised of it, and it never fails.
pub(crate) fn now_micros() -> i64 {
    let now = system_now();
    let epoch = unix_epoch();
    match system_since(&now, &epoch) {
        Some(d) => micros_of_nanos(duration_nanos(&d)),
        None => match system_since(&epoch, &now) {
            Some(d) => {
                let m = micros_of_nanos(duration_nanos(&d));
                -m
            },
            None => 0,
        },
    }
}

} // verus!
