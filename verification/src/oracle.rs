//! AvailabilityOracle: the advisory "tasks available" signal.
//!
//! The oracle draws a pseudo-random boolean and publishes it as the current
//! signal. It shares no state with the reward path and is pure telemetry: a
//! missed draw never blocks or fails a claim. The periodic scheduling of the
//! draws belongs to the surrounding process, not to this library.

use vstd::prelude::*;

verus! {

/// Relies on rand::random: draws one value of the standard distribution.
/// Nothing is promised of the drawn value; for `bool` the distribution is
/// uniform, so each draw is an independent coin flip.
pub assume_specification<T>[ rand::random::<T> ]() -> (r: T)
    where
        rand::distributions::Standard: rand::distributions::Distribution<T>,
;

/// Draws a fresh availability signal: a pseudo-random boolean, true half of
/// the time. Two calls may differ; callers can rely on nothing but receiving
/// some boolean.
pub fn determine_task_availability() -> bool {
    rand::random::<bool>()
}

/// The published availability signal.
pub struct AvailabilityOracle {
    /// The most recently published signal; false until the first update.
    pub tasks_available: bool,
}

impl AvailabilityOracle {
    /// Creates the oracle with no availability published yet.
    pub fn new() -> (r: AvailabilityOracle)
        ensures
            !r.tasks_available,
    {
        AvailabilityOracle { tasks_available: false }
    }

    /// One oracle tick: draws a fresh signal, publishes it, and returns the
    /// published value. Whatever the draw returned, the published signal
    /// equals the returned one.
    pub fn update(&mut self) -> (r: bool)
        ensures
            final(self).tasks_available == r,
    {
        let available = determine_task_availability();
        self.tasks_available = available;
        available
    }

    /// Reads the currently published signal without changing it.
    pub fn is_available(&self) -> (r: bool)
        ensures
            r == self.tasks_available,
    {
        self.tasks_available
    }
}

} // verus!
