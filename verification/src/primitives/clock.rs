//! The monotonic clock of `std::time`.

use std::time::{Duration, Instant};
use vstd::prelude::*;

verus! {

/// A reading of the monotonic clock. Nothing is visible inside it.
#[verifier::external_type_specification]
#[verifier::external_body]
pub struct ExInstant(Instant);

/// `std::time::Instant::now`: the current reading of the clock. Nothing is
/// claimed of it.
pub assume_specification[ Instant::now ]() -> (start: Instant)
;

/// `std::time::Instant::elapsed`: the time that has passed since the reading
/// was taken. Nothing is claimed of it.
pub assume_specification[ Instant::elapsed ](start: &Instant) -> (elapsed: Duration)
;

/// `std::time::Duration::as_nanos`: the duration in whole nanoseconds.
/// Nothing is claimed of the number.
pub assume_specification[ Duration::as_nanos ](elapsed: &Duration) -> (nanos: u128)
;

} // verus!
