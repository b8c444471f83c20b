//! Wall-clock readings for latency measurement.
//!
//! Readings come from std's monotonic clock and are carried as whole
//! microseconds. Nothing is assumed about the values a clock returns, so
//! every contract that mentions an elapsed time speaks only of the reading
//! that was actually taken.

use vstd::prelude::*;

verus! {

#[verifier::external_type_specification]
#[verifier::external_body]
pub struct ExInstant(std::time::Instant);

/// Relies on std::time::Instant::now: an opaque reading of the monotonic
/// clock. No value can be promised of it.
pub assume_specification[ std::time::Instant::now ]() -> (r: std::time::Instant);

/// Relies on std::time::Instant::elapsed: the time since the reading was
/// taken. The value depends on when the call happens, so nothing is
/// promised of it.
pub assume_specification[ std::time::Instant::elapsed ](
    start: &std::time::Instant,
) -> (d: core::time::Duration);

/// Relies on core::time::Duration::as_micros: the whole number of
/// microseconds in the duration. The value is opaque here because
/// `Duration` itself is opaque.
pub assume_specification[ core::time::Duration::as_micros ](
    d: &core::time::Duration,
) -> (r: u128);

/// Clamps a microsecond count into the range carried by the library's
/// duration values.
pub fn clamp_micros(x: u128) -> (r: u64)
    ensures
        x <= u64::MAX ==> r == x,
        x > u64::MAX ==> r == u64::MAX,
{
    if x > u64::MAX as u128 {
        u64::MAX
    } else {
        x as u64
    }
}

/// The microseconds elapsed since `start`, clamped into `u64`. The value
/// is a fresh clock reading, so no contract pins it down.
pub fn elapsed_micros(start: &std::time::Instant) -> u64 {
    let d = start.elapsed();
    clamp_micros(d.as_micros())
}

} // verus!
