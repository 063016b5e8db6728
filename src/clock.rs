//! The wall clock, read through std's monotonic `Instant`.
//!
//! Nothing is promised of what the clock reads: every contract that uses it
//! holds whatever time it reports.
use vstd::prelude::*;

verus! {

#[verifier::external_type_specification]
#[verifier::external_body]
pub struct ExInstant(std::time::Instant);

/// Relies on `Instant::now`: reads the monotonic clock.
pub assume_specification[ std::time::Instant::now ]() -> std::time::Instant;

/// Relies on `Instant::elapsed`: the time since `instant` was read.
pub assume_specification[ std::time::Instant::elapsed ](instant: &std::time::Instant) -> std::time::Duration;

/// Relies on `Duration::as_millis`: the whole milliseconds of a duration.
pub assume_specification[ core::time::Duration::as_millis ](duration: &core::time::Duration) -> u128;

/// Whole milliseconds since `start`.
pub fn millis_since(start: &std::time::Instant) -> u128 {
    let elapsed = start.elapsed();
    elapsed.as_millis()
}

} // verus!
