//! The monotonic clock by which blocks are timed.

use std::time::Instant;
use vstd::prelude::*;

verus! {

/// `std::time::Instant`: a reading of the monotonic clock. Nothing is known of
/// what one holds.
#[verifier::external_type_specification]
#[verifier::external_body]
pub struct ExInstant(Instant);

/// Reads the monotonic clock with `Instant::now`. What it reads depends on
/// when it is called, so nothing is promised of it.
#[verifier::external_body]
pub(crate) fn clock_origin() -> Instant {
    Instant::now()
}

/// The time since `origin` in nanoseconds, by `Instant::elapsed`. What comes
/// back depends on when it is called, so nothing is promised of it.
#[verifier::external_body]
pub(crate) fn nanos_since(origin: &Instant) -> u128 {
    origin.elapsed().as_nanos()
}

} // verus!
