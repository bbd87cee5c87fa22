//! Elapsed time, read from the monotonic clock.

use std::time::Duration;
use std::time::Instant;
use vstd::prelude::*;

verus! {

/// A point on std's monotonic clock, opaque to the verifier.
#[verifier::external_type_specification]
#[verifier::external_body]
pub struct ExInstant(Instant);

/// `Instant::now` of std: the current point on the monotonic clock. Nothing
/// is claimed of it.
pub assume_specification[ Instant::now ]() -> Instant;

/// `Instant::elapsed` of std: the time that has passed since the instant.
/// Nothing is claimed of it.
pub assume_specification[ Instant::elapsed ](instant: &Instant) -> Duration;

/// `Duration::as_secs` of std: the whole seconds of a duration. The duration
/// is opaque, so nothing is claimed of the number.
pub assume_specification[ Duration::as_secs ](duration: &Duration) -> u64;

/// `Duration::as_nanos` of std: the whole of a duration in nanoseconds, the
/// unit in which std keeps it. The duration is opaque, so nothing is claimed
/// of the number.
pub assume_specification[ Duration::as_nanos ](duration: &Duration) -> u128;

/// Nanoseconds in a second.
pub const NANOS_PER_SEC: u128 = 1_000_000_000;

/// Measures the time since it was started.
pub struct Stopwatch {
    start: Instant,
}

impl Stopwatch {
    /// A stopwatch started now.
    pub fn start() -> Stopwatch {
        Stopwatch { start: Instant::now() }
    }

    /// Whole seconds since the stopwatch was started. The answer depends on
    /// the time of the call, so no contract pins it.
    pub fn elapsed_secs(&self) -> u64 {
        let elapsed = self.start.elapsed();
        elapsed.as_secs()
    }

    /// Nanoseconds since the stopwatch was started, with nothing cut off. The
    /// answer depends on the time of the call, so no contract pins it.
    pub fn elapsed_nanos(&self) -> u128 {
        let elapsed = self.start.elapsed();
        elapsed.as_nanos()
    }
}

/// An optional bound on how long a search may run.
pub struct Deadline {
    watch: Stopwatch,
    limit_secs: Option<u64>,
}

impl Deadline {
    /// The bound in seconds, if there is one.
    pub closed spec fn limit(&self) -> Option<u64> {
        self.limit_secs
    }

    /// A deadline `limit_secs` seconds from now; none when `limit_secs` is
    /// `None`.
    pub fn after(limit_secs: Option<u64>) -> (r: Deadline)
        ensures
            r.limit() == limit_secs,
    {
        Deadline { watch: Stopwatch::start(), limit_secs }
    }

    /// Decides from the seconds that have passed whether the deadline is over.
    pub open spec fn over_at(limit: Option<u64>, elapsed: u64) -> bool {
        match limit {
            Some(secs) => elapsed >= secs,
            None => false,
        }
    }

    /// Whether `elapsed` seconds are past the deadline.
    pub fn is_over_at(&self, elapsed: u64) -> (r: bool)
        ensures
            r == Deadline::over_at(self.limit(), elapsed),
    {
        match self.limit_secs {
            Some(secs) => elapsed >= secs,
            None => false,
        }
    }

    /// Whether the deadline has passed. Without a bound it never has.
    pub fn has_passed(&self) -> (r: bool)
        ensures
            self.limit() is None ==> !r,
            self.limit() == Some(0u64) ==> r,
    {
        match self.limit_secs {
            Some(_) => {
                let elapsed = self.watch.elapsed_secs();
                self.is_over_at(elapsed)
            },
            None => false,
        }
    }
}

} // verus!
