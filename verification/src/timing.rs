//! The timer: readings of a monotonic clock around one operation, and the
//! elapsed time between two readings. A monotonic source is required so
//! that wall-clock adjustments during a request can never yield a
//! negative or discontinuous duration.

use vstd::prelude::*;

verus! {

#[verifier::external_type_specification]
#[verifier::external_body]
pub struct ExInstant(std::time::Instant);

/// A monotonic clock, anchored at the moment it was started. Readings
/// are nanoseconds since that anchor; what a reading returns depends on
/// real time, so nothing is promised of its value, only that the
/// elapsed-time arithmetic on any pair of readings is exact and never
/// underflows.
pub struct MonotonicClock {
    origin: std::time::Instant,
}

impl MonotonicClock {
    /// Relies on std::time::Instant::now: a reading of the operating
    /// system's monotonic clock.
    #[verifier::external_body]
    pub fn start() -> (c: MonotonicClock) {
        MonotonicClock { origin: std::time::Instant::now() }
    }

    /// Relies on std::time::Instant::elapsed and Duration::as_nanos:
    /// nanoseconds of monotonic time since the clock was started. The
    /// value depends on when the call is made, so no two calls are
    /// related by contract; Instant's documentation promises the
    /// underlying instants never go backwards.
    #[verifier::external_body]
    pub fn reading(&self) -> (r: u128) {
        self.origin.elapsed().as_nanos()
    }
}

/// Computes the elapsed time between two readings of a clock, in
/// nanoseconds. A pair that runs backwards (which a monotonic clock
/// never produces, but a broken source could) yields zero, never a
/// negative or wrapped value.
pub fn elapsed_between(start_nanos: u128, end_nanos: u128) -> (r: u128)
    ensures
        end_nanos >= start_nanos ==> r == end_nanos - start_nanos,
        end_nanos < start_nanos ==> r == 0,
{
    if end_nanos >= start_nanos {
        end_nanos - start_nanos
    } else {
        0
    }
}

/// Narrows an elapsed-nanoseconds value to the report's range,
/// saturating at the largest representable value (about 584 years).
pub fn clamp_nanos(n: u128) -> (r: u64)
    ensures
        n <= u64::MAX ==> r == n,
        n > u64::MAX ==> r == u64::MAX,
{
    if n <= u64::MAX as u128 {
        n as u64
    } else {
        u64::MAX
    }
}

} // verus!
