//! The monotonic clock, read through std's `Instant` and `Duration`.
//!
//! Time-dependent logic in this crate works on plain nanosecond counts
//! measured from an origin `Instant` owned by the structure that needs them;
//! only the readings of the clock themselves go through the items below.

use std::time::Duration;
use std::time::Instant;
use vstd::prelude::*;

verus! {

/// Nanoseconds in one second.
pub const NANOS_PER_SEC: u128 = 1_000_000_000;

/// Nanoseconds in one millisecond.
pub const NANOS_PER_MILLI: u128 = 1_000_000;

/// std's monotonic clock reading.
#[verifier::external_type_specification]
#[verifier::external_body]
pub struct ExInstant(Instant);

/// The total number of whole nanoseconds that a `Duration` holds.
pub uninterp spec fn duration_nanos(d: Duration) -> u128;

/// `Instant::now`: the current reading of the monotonic clock.
/// Nothing is promised of the value: it depends on when the call is made.
#[verifier::external_body]
pub(crate) fn instant_now() -> (r: Instant) {
    Instant::now()
}

/// `Instant::elapsed`: the time that has passed since `since` (zero if the
/// clock reads earlier).  Nothing is promised of the value: it depends on
/// when the call is made.
#[verifier::external_body]
pub(crate) fn elapsed_since(since: &Instant) -> (r: Duration) {
    since.elapsed()
}

/// `Duration::as_nanos`: the whole nanoseconds that `d` holds, a function of
/// `d` alone, named `duration_nanos`.
#[verifier::external_body]
pub(crate) fn duration_as_nanos(d: &Duration) -> (r: u128)
    ensures
        r == duration_nanos(*d),
{
    d.as_nanos()
}

/// Whether `n` is the whole nanoseconds of some `Duration`: what a reading
/// of the clock against an origin can be.
pub open spec fn is_clock_reading(n: u128) -> bool {
    exists|d: Duration| n == #[trigger] duration_nanos(d)
}

/// Nanoseconds passed since `origin`, by the clock at the time of the call:
/// the whole nanoseconds of the `Duration` that has elapsed.
pub(crate) fn nanos_since(origin: &Instant) -> (r: u128)
    ensures
        is_clock_reading(r),
{
    let d = elapsed_since(origin);
    let r = duration_as_nanos(&d);
    assert(r == duration_nanos(d));
    r
}

} // verus!
