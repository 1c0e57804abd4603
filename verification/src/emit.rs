//! The emitter's pacing: how a target event rate and cycle plan turn
//! into wait intervals and a stop decision.  The waiting itself and the
//! transport sends happen outside the library.

use vstd::prelude::*;

verus! {

/// How one emitter paces itself.
#[derive(Clone, Copy, Debug, PartialEq, Eq, Structural)]
pub struct EmitterConfig {
    /// Events per second.
    pub rate: u64,
    /// Number of cycles to send; zero means run forever.
    pub num_cycles: u64,
    /// Events per cycle.
    pub events_per_cycle: u64,
    /// Delay between cycles in milliseconds.
    pub cycle_delay: u64,
}

/// How one sender batches, in the older naming.
#[derive(Clone, Copy, Debug, PartialEq, Eq, Structural)]
pub struct SenderConfig {
    /// Events per second.
    pub rate: u64,
    /// Number of batches to send; zero means run forever.
    pub num_batches: u64,
    /// Events per batch.
    pub events_per_batch: u64,
    /// Delay between batches in milliseconds.
    pub batch_delay: u64,
}

impl EmitterConfig {
    /// The pause between two events, in nanoseconds, for the configured
    /// rate.
    pub fn interval_nanos(&self) -> (r: u64)
        requires
            self.rate > 0,
        ensures
            r == 1_000_000_000u64 / self.rate,
    {
        1_000_000_000u64 / self.rate
    }

    /// Whether another cycle should run after `cycles_sent` finished
    /// ones: always when the cycle count is zero, else until the count
    /// is reached.
    pub fn another_cycle(&self, cycles_sent: u64) -> (r: bool)
        ensures
            r == (self.num_cycles == 0 || cycles_sent < self.num_cycles),
    {
        self.num_cycles == 0 || cycles_sent < self.num_cycles
    }

    /// Whether a delay runs after a just-finished cycle: only when one
    /// is configured and more cycles follow.
    pub fn delay_after_cycle(&self, cycles_sent: u64) -> (r: bool)
        ensures
            r == (self.cycle_delay > 0 && cycles_sent < self.num_cycles),
    {
        self.cycle_delay > 0 && cycles_sent < self.num_cycles
    }
}

impl SenderConfig {
    /// The pause between two events, in microseconds, for the configured
    /// rate.
    pub fn interval_micros(&self) -> (r: u64)
        requires
            self.rate > 0,
        ensures
            r == 1_000_000u64 / self.rate,
    {
        1_000_000u64 / self.rate
    }
}

} // verus!
