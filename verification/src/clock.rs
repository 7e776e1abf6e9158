use vstd::prelude::*;
use crate::millis::Millis;

verus! {

/// A reading of std's monotonic clock, carried through as it is.
#[verifier::external_type_specification]
#[verifier::external_body]
pub struct ExInstant(std::time::Instant);

/// `Instant::now` reads the clock: nothing is claimed of what it returns.
pub assume_specification[ std::time::Instant::now ]() -> (r: std::time::Instant)
;

/// `Instant::elapsed` reads the clock again: nothing is claimed of the time
/// that went by.
pub assume_specification[ std::time::Instant::elapsed ](start: &std::time::Instant) -> (r:
    std::time::Duration)
;

/// `Duration::as_micros` gives a count of microseconds; which one is of no
/// matter here.
pub assume_specification[ std::time::Duration::as_micros ](d: &std::time::Duration) -> (r: u128)
;

/// The time that went by since `start`, as the clock has it now.
pub(crate) fn elapsed_since(start: &std::time::Instant) -> (r: Millis) {
    let gone = start.elapsed();
    Millis::from_reading(gone.as_micros())
}

} // verus!
