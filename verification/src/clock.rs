//! The clocks that the monitor reads: the monotonic clock behind its
//! "last updated" marks and the system clock behind Polkadot block times.

use std::time::{Duration, Instant, SystemTime};
use vstd::prelude::*;

verus! {

/// `std::time::Instant`, a point on the monotonic clock.
#[verifier::external_type_specification]
#[verifier::external_body]
pub struct ExInstant(std::time::Instant);

/// `Instant::clone`. `Instant` is `Copy`, and its `Clone` (derived) gives
/// the same instant.
pub assume_specification[ <std::time::Instant as std::clone::Clone>::clone ](instant: &Instant) -> (copy: Instant)
    ensures
        copy == *instant,
;

/// `Instant::now()`. The value depends on the time of the call, so nothing
/// is stated of it.
#[verifier::external_body]
pub fn instant_now() -> Instant {
    Instant::now()
}

/// `t.elapsed()`: the time passed since `t` (zero where `t` lies in the
/// future). It depends on the time of the call, so nothing is stated of it.
#[verifier::external_body]
fn instant_elapsed(t: &Instant) -> Duration {
    t.elapsed()
}

/// `d.as_secs()`: the whole seconds in `d`. `Duration` is opaque here, so
/// nothing is stated of the count.
#[verifier::external_body]
fn whole_seconds(d: Duration) -> u64 {
    d.as_secs()
}

/// `Duration::from_secs(secs)`, the duration of `secs` whole seconds; it
/// never fails. `Duration` is opaque here, so nothing more is stated.
#[verifier::external_body]
fn duration_from_secs(secs: u64) -> Duration {
    Duration::from_secs(secs)
}

/// `t.checked_sub(d)`: the instant `d` before `t`, or `None` where the clock
/// cannot represent it. Which of the two comes depends on the machine's
/// clock, so nothing is stated of it.
#[verifier::external_body]
fn instant_checked_sub(t: &Instant, d: Duration) -> Option<Instant> {
    t.checked_sub(d)
}

/// Whole seconds passed since `t` on the monotonic clock.
pub fn elapsed_secs(t: &Instant) -> u64 {
    whole_seconds(instant_elapsed(t))
}

/// The instant `secs` seconds before `t`, where the clock can represent it.
pub fn instant_before(t: &Instant, secs: u64) -> Option<Instant> {
    instant_checked_sub(t, duration_from_secs(secs))
}

/// `std::time::SystemTime`, a reading of the system clock.
#[verifier::external_type_specification]
#[verifier::external_body]
pub struct ExSystemTime(std::time::SystemTime);

/// `SystemTime::now()`. The value depends on the time of the call, so
/// nothing is stated of it.
#[verifier::external_body]
pub fn system_time_now() -> SystemTime {
    SystemTime::now()
}

/// `t.duration_since(UNIX_EPOCH)`, the time from the Unix epoch to `t`;
/// `None` where `t` lies before the epoch (`duration_since` then returns an
/// error). The reading is opaque, so nothing is stated of the value.
#[verifier::external_body]
fn duration_since_epoch(t: &SystemTime) -> Option<Duration> {
    t.duration_since(std::time::UNIX_EPOCH).ok()
}

/// The Unix time, as a signed count of seconds, of a reading that lies
/// `secs` seconds after the Unix epoch; `None` where the reading lies before
/// the epoch (`secs` is `None`) or beyond what an `i64` holds.
pub open spec fn timestamp_of(secs: Option<u64>) -> Option<i64> {
    match secs {
        Some(s) => if s <= i64::MAX as u64 {
            Some(s as i64)
        } else {
            None
        },
        None => None,
    }
}

/// Converts a count of seconds since the Unix epoch into a signed Unix
/// timestamp, refusing counts that an `i64` cannot hold.
pub fn unix_timestamp_from(secs: Option<u64>) -> (t: Option<i64>)
    ensures
        t == timestamp_of(secs),
{
    match secs {
        Some(s) => if s <= i64::MAX as u64 {
            Some(s as i64)
        } else {
            None
        },
        None => None,
    }
}

/// The current Unix time in whole seconds, read from the system clock;
/// `None` where the clock lies before the Unix epoch or beyond what an `i64`
/// holds. The reading itself is not stated: the result is the conversion of
/// some count of seconds since the epoch.
pub fn unix_timestamp_now() -> (t: Option<i64>)
    ensures
        exists|secs: Option<u64>| t == #[trigger] timestamp_of(secs),
        t matches Some(v) ==> v >= 0,
{
    let secs = match duration_since_epoch(&system_time_now()) {
        Some(d) => Some(whole_seconds(d)),
        None => None,
    };
    let t = unix_timestamp_from(secs);
    assert(t == timestamp_of(secs));
    t
}

} // verus!
