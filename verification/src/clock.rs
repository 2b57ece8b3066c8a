//! The monotonic clock of the standard library, as far as the pipeline reads it.
//!
//! Nothing is claimed of a reading: two readings of one clock may differ, and
//! every consumer is verified for any value that comes back.

use vstd::prelude::*;
use std::time::Duration;
use std::time::Instant;

verus! {

/// `std::time::Instant`, carried through as an opaque value.
#[verifier::external_type_specification]
#[verifier::external_body]
pub struct ExInstant(Instant);

/// `Instant::now`: the present moment. Trusted; nothing is stated of it.
pub assume_specification[ Instant::now ]() -> Instant;

/// `Instant::elapsed`: the time since the instant was taken. Trusted; nothing
/// is stated of it.
pub assume_specification[ Instant::elapsed ](start: &Instant) -> Duration;

/// `Duration::as_micros`: the whole microseconds of a duration. Trusted;
/// nothing is stated of it.
pub assume_specification[ Duration::as_micros ](span: &Duration) -> u128;

/// Whole microseconds that have passed since `start`.
pub fn micros_since(start: &Instant) -> u128 {
    let span = start.elapsed();
    span.as_micros()
}

} // verus!
