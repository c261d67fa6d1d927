//! The monotonic clock, read in milliseconds since a fixed instant.

use std::time::{Duration, Instant};
use vstd::prelude::*;

verus! {

/// `std::time::Instant`: a reading of the monotonic clock, opaque here.
#[verifier::external_type_specification]
#[verifier::external_body]
pub struct ExInstant(Instant);

/// `Instant::now` reads the monotonic clock. Nothing is known of the reading.
pub assume_specification[ Instant::now ]() -> (now: Instant);

/// `Instant::elapsed` gives the time since the instant was read. Nothing is
/// known of the result.
pub assume_specification[ Instant::elapsed ](instant: &Instant) -> (elapsed: Duration);

/// `Duration::as_millis` gives the whole milliseconds of a duration. The
/// duration is opaque here, so nothing is known of the result.
pub assume_specification[ Duration::as_millis ](duration: &Duration) -> (millis: u128);

/// The whole milliseconds that have passed since `epoch`, or the largest
/// reading if they no longer fit.
pub(crate) fn millis_since(epoch: &Instant) -> (now: u64)
    ensures
        is_reading_since(*epoch, now),
{
    let elapsed: Duration = epoch.elapsed();
    let millis: u128 = elapsed.as_millis();
    reading_of_millis(millis)
}

/// The clock reading for `millis` whole milliseconds: the number itself, or
/// the largest reading if it no longer fits.
pub fn reading_of_millis(millis: u128) -> (now: u64)
    ensures
        now == crate::lease::clock_reading(millis as int),
{
    if millis > u64::MAX as u128 {
        u64::MAX
    } else {
        millis as u64
    }
}

/// Whether `now` is a reading of the clock that counts from `epoch`: the
/// whole milliseconds of a time that `Instant::elapsed` gave for `epoch`, as
/// `Duration::as_millis` counts them, or the largest reading if they no
/// longer fit.
pub open spec fn is_reading_since(epoch: Instant, now: u64) -> bool {
    exists|elapsed: Duration, millis: u128|
        {
            &&& call_ensures(Instant::elapsed, (&epoch,), elapsed)
            &&& call_ensures(Duration::as_millis, (&elapsed,), millis)
            &&& now == crate::lease::clock_reading(millis as int)
        }
}

} // verus!
