//! The monotonic clock, taken on trust from the standard library.
//!
//! Deadlines are compared against coarse monotonic time, never wall-clock
//! time, because the check runs on every execution step and wall-clock time
//! may jump. Nothing can be promised about a clock sample, so every caller
//! states what holds of its result whatever value came back, and the
//! decisions taken on a sample live in verified functions that receive it as
//! an argument.

use vstd::prelude::*;

verus! {

#[verifier::external_type_specification]
#[verifier::external_body]
pub struct ExInstant(std::time::Instant);

/// Relies on `std::time::Instant::now`: captures one sample of the monotonic
/// clock. The sample depends on when the call runs, so nothing is promised
/// of it.
#[verifier::external_body]
pub(crate) fn monotonic_now() -> (r: std::time::Instant) {
    std::time::Instant::now()
}

/// Relies on `std::time::Instant::elapsed`: the time since `start` on the
/// monotonic clock, converted to nanoseconds. The value depends on when the
/// call runs, so nothing is promised of it.
#[verifier::external_body]
pub(crate) fn elapsed_ns(start: &std::time::Instant) -> (r: u64) {
    start.elapsed().as_nanos() as u64
}

} // verus!
