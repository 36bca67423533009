//! Declarations of the standard-library types that the library carries
//! through opaquely, and the few standard calls whose results it uses.

use vstd::prelude::*;
use std::time::{Duration, Instant};

verus! {

/// A filesystem path, carried through as an opaque value.
#[verifier::external_type_specification]
#[verifier::external_body]
pub struct ExPathBuf(std::path::PathBuf);

/// A point on the monotonic clock, carried through as an opaque value.
#[verifier::external_type_specification]
#[verifier::external_body]
pub struct ExInstant(std::time::Instant);

/// The total number of nanoseconds that a `Duration` spans, as
/// `Duration::as_nanos` reports it.
pub uninterp spec fn duration_total_nanos(d: Duration) -> nat;

/// `Duration::as_nanos`: the total number of nanoseconds of `d`.
#[verifier::external_body]
pub(crate) fn duration_as_nanos(d: &Duration) -> (n: u128)
    ensures
        n == duration_total_nanos(*d),
{
    d.as_nanos()
}

/// `Duration::ZERO`: the empty duration, which spans zero nanoseconds.
#[verifier::external_body]
pub(crate) fn zero_duration() -> (d: Duration)
    ensures
        duration_total_nanos(d) == 0,
{
    Duration::ZERO
}

/// `Instant::now`: the current reading of the monotonic clock. Nothing is
/// stated of the value: it depends on the time of the call.
#[verifier::external_body]
pub(crate) fn instant_now() -> Instant {
    Instant::now()
}

/// `elapsed` is a time that has passed since the clock read `start`. This
/// names no single value: two readings since one start may differ.
pub uninterp spec fn elapsed_since(start: Instant, elapsed: Duration) -> bool;

/// `Instant::elapsed`: the time that passed since `start`. Which duration
/// that is depends on the time of the call; only that it was measured from
/// `start` is stated.
#[verifier::external_body]
pub(crate) fn instant_elapsed(start: &Instant) -> (r: Duration)
    ensures
        elapsed_since(*start, r),
{
    start.elapsed()
}

/// `Instant::elapsed`, read again after `previous`, an earlier reading since
/// the same `start`. The clock is monotonic (an `Instant` is never earlier
/// than one measured before it), so the new reading is no shorter.
#[verifier::external_body]
pub(crate) fn instant_elapsed_after(start: &Instant, previous: &Duration) -> (r: Duration)
    requires
        elapsed_since(*start, *previous),
    ensures
        elapsed_since(*start, r),
        duration_total_nanos(r) >= duration_total_nanos(*previous),
{
    start.elapsed()
}

} // verus!
