//! The simulation clock: gates how often the simulation steps, decoupling the
//! simulation rate from the presentation refresh rate.

use vstd::prelude::*;

verus! {

/// A fixed-rate gate over a monotonic time source. Time is measured in plain
/// units (for instance milliseconds since the run began); the clock never
/// reads the time itself, callers pass `now` in. `last_tick_time` only ever
/// moves forward, by increments of at least `tick_interval`.
#[derive(Clone, Copy, Debug, PartialEq, Eq, Structural)]
pub struct SimulationClock {
    pub tick_interval: u64,
    pub last_tick_time: u64,
}

impl SimulationClock {
    /// A clock is well formed when its interval is positive: a zero interval
    /// would make a tick due immediately after it was recorded.
    pub open spec fn wf(self) -> bool {
        self.tick_interval > 0
    }

    /// A tick is due once at least one full interval has passed since the
    /// last recorded tick.
    pub open spec fn tick_due(self, now: u64) -> bool {
        now >= self.last_tick_time + self.tick_interval
    }

    pub fn new(tick_interval: u64, start_time: u64) -> (clock: SimulationClock)
        requires
            tick_interval > 0,
        ensures
            clock == (SimulationClock { tick_interval, last_tick_time: start_time }),
            clock.wf(),
    {
        SimulationClock { tick_interval, last_tick_time: start_time }
    }

    /// True iff a tick is due at `now`. A caller that acts on a true result
    /// must record the tick afterwards with `record_tick(now)`.
    pub fn should_tick(&self, now: u64) -> (r: bool)
        ensures
            r == self.tick_due(now),
    {
        now >= self.last_tick_time && now - self.last_tick_time >= self.tick_interval
    }

    /// Record that a tick ran at `now`. Only a time at which a tick was due
    /// may be recorded, so `last_tick_time` advances by at least one interval.
    pub fn record_tick(&mut self, now: u64)
        requires
            old(self).tick_due(now),
        ensures
            final(self).last_tick_time == now,
            final(self).tick_interval == old(self).tick_interval,
            final(self).last_tick_time >= old(self).last_tick_time + old(self).tick_interval,
    {
        self.last_tick_time = now;
    }
}

/// Clock gating: a tick is due iff `now` is at least one full interval past
/// the last tick, and never for a `now` strictly within the interval; and
/// immediately after a tick is recorded at `now`, no tick is due at `now`.
pub proof fn lemma_clock_gating(clock: SimulationClock, now: u64)
    requires
        clock.wf(),
    ensures
        clock.tick_due(now) == (now - clock.last_tick_time >= clock.tick_interval),
        !(SimulationClock { tick_interval: clock.tick_interval, last_tick_time: now }).tick_due(
            now,
        ),
{
}

} // verus!
