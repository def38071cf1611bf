//! Measuring how long a frame has taken.
//!
//! The clock is read by the platform, which hands its readings in as
//! microseconds since a moment of its choice.

use vstd::prelude::*;

verus! {

/// What a counter has measured.
#[derive(Debug, Clone, Copy, PartialEq, Eq, Structural)]
pub struct PerformanceMetrics {
    pub elapsed_time: u64,
}

/// The reading of the clock at which the current frame began.
#[derive(Debug, Clone, Copy, PartialEq, Eq, Structural)]
pub struct PerformanceCounter {
    pub last_instant: u64,
}

impl PerformanceMetrics {
    /// The time that has passed, in microseconds.
    #[must_use]
    pub fn elapsed_time(&self) -> (micros: u64)
        ensures
            micros == self.elapsed_time,
    {
        self.elapsed_time
    }
}

impl PerformanceCounter {
    /// The time from the beginning of the frame to a reading of the clock;
    /// none where the clock has gone backwards.
    pub open spec fn elapsed(self, now: u64) -> int {
        if now < self.last_instant {
            0
        } else {
            now - self.last_instant
        }
    }

    /// A counter for a frame that begins at the reading `now`.
    #[must_use]
    pub fn start(now: u64) -> (counter: Self)
        ensures
            counter.last_instant == now,
    {
        PerformanceCounter { last_instant: now }
    }

    /// The time that has passed since the frame began, at the reading `now`.
    #[must_use]
    pub fn metrics(&self, now: u64) -> (metrics: PerformanceMetrics)
        ensures
            metrics.elapsed_time == self.elapsed(now),
    {
        PerformanceMetrics { elapsed_time: now.saturating_sub(self.last_instant) }
    }

    /// Begins the next frame at the reading `now`.
    pub fn restart(&mut self, now: u64)
        ensures
            final(self).last_instant == now,
    {
        self.last_instant = now;
    }
}

} // verus!
