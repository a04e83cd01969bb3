//! The tick clock: accumulates elapsed real time against a repeating
//! interval, fires one advance per interval, and shrinks on every eat.

use vstd::prelude::*;

verus! {

/// Starting repeating interval, in milliseconds.
pub const INITIAL_TICK_MS: u64 = 150;
/// How much the interval shrinks on each eat, in milliseconds.
pub const ACCELERATION_MS: u64 = 10;
/// The floor the interval never shrinks below, in milliseconds.
pub const MIN_TICK_MS: u64 = 50;

/// A repeating interval with an elapsed-time accumulator.
#[derive(Clone, Copy, PartialEq, Eq, Structural, Debug)]
pub struct TickRate {
    pub interval_ms: u64,
    pub elapsed_ms: u64,
}

impl TickRate {
    pub open spec fn wf(self) -> bool {
        &&& MIN_TICK_MS <= self.interval_ms <= INITIAL_TICK_MS
        &&& self.elapsed_ms < self.interval_ms
    }

    /// Whether adding `delta_ms` of real time reaches the interval.
    pub open spec fn spec_fires(self, delta_ms: u64) -> bool {
        self.elapsed_ms + delta_ms >= self.interval_ms
    }

    /// The clock after one update: on firing the accumulator resets to zero
    /// and excess time is not carried over.
    pub open spec fn spec_ticked(self, delta_ms: u64) -> TickRate {
        if self.spec_fires(delta_ms) {
            TickRate { interval_ms: self.interval_ms, elapsed_ms: 0 }
        } else {
            TickRate { interval_ms: self.interval_ms, elapsed_ms: (self.elapsed_ms + delta_ms) as u64 }
        }
    }

    /// The clock after one eat: the interval shortened by the fixed step,
    /// floored at the minimum.
    pub open spec fn spec_accelerated(self) -> TickRate {
        if self.interval_ms - ACCELERATION_MS >= MIN_TICK_MS {
            TickRate { interval_ms: (self.interval_ms - ACCELERATION_MS) as u64, elapsed_ms: self.elapsed_ms }
        } else {
            TickRate { interval_ms: MIN_TICK_MS, elapsed_ms: self.elapsed_ms }
        }
    }

    pub fn new() -> (t: TickRate)
        ensures
            t == (TickRate { interval_ms: INITIAL_TICK_MS, elapsed_ms: 0 }),
            t.wf(),
    {
        TickRate { interval_ms: INITIAL_TICK_MS, elapsed_ms: 0 }
    }

    /// Accumulate `delta_ms` of elapsed real time; reports whether an advance
    /// event fires this update.
    pub fn tick(&mut self, delta_ms: u64) -> (fired: bool)
        requires
            old(self).wf(),
        ensures
            fired == old(self).spec_fires(delta_ms),
            *final(self) == old(self).spec_ticked(delta_ms),
            final(self).wf(),
    {
        if delta_ms >= self.interval_ms - self.elapsed_ms {
            self.elapsed_ms = 0;
            true
        } else {
            self.elapsed_ms = self.elapsed_ms + delta_ms;
            false
        }
    }

    /// Shorten the interval by the acceleration step, floored at the minimum.
    /// Called once per eat, always right after the clock fired, so the
    /// accumulator is zero.
    pub fn accelerate(&mut self)
        requires
            old(self).wf(),
            old(self).elapsed_ms == 0,
        ensures
            *final(self) == old(self).spec_accelerated(),
            final(self).wf(),
            final(self).interval_ms <= old(self).interval_ms,
            old(self).interval_ms > MIN_TICK_MS ==> final(self).interval_ms < old(self).interval_ms,
    {
        if self.interval_ms - ACCELERATION_MS >= MIN_TICK_MS {
            self.interval_ms = self.interval_ms - ACCELERATION_MS;
        } else {
            self.interval_ms = MIN_TICK_MS;
        }
    }
}

/// The tick interval strictly decreases with each eat until it reaches the
/// floor, and it never drops below the floor.
pub proof fn lemma_accelerate_decreases_to_floor(t: TickRate)
    requires
        t.wf(),
    ensures
        t.spec_accelerated().interval_ms <= t.interval_ms,
        t.interval_ms > MIN_TICK_MS ==> t.spec_accelerated().interval_ms < t.interval_ms,
        t.spec_accelerated().interval_ms >= MIN_TICK_MS,
{
}

/// Accumulating time never changes the interval: only eats shorten it and
/// only a restart resets it.
pub proof fn lemma_tick_keeps_interval(t: TickRate, delta_ms: u64)
    requires
        t.wf(),
    ensures
        t.spec_ticked(delta_ms).interval_ms == t.interval_ms,
{
}

} // verus!
