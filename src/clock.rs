use vstd::prelude::*;

verus! {

/// A repeating clock that fires each time a full period of wall-clock time
/// has accumulated. Time is counted in nanoseconds.
#[derive(Clone, Copy, Debug)]
pub struct RepeatingClock {
    pub period_nanos: u64,
    pub elapsed_nanos: u64,
}

impl RepeatingClock {
    pub open spec fn wf(self) -> bool {
        0 < self.period_nanos && self.elapsed_nanos < self.period_nanos
    }

    /// Whether advancing by `delta` fires the clock.
    pub open spec fn fires(self, delta: u64) -> bool {
        self.elapsed_nanos + delta >= self.period_nanos
    }

    /// Time carried over after advancing by `delta`: what is left of the
    /// accumulated time once every full period is taken out.
    pub open spec fn carried(self, delta: u64) -> int {
        (self.elapsed_nanos + delta) % (self.period_nanos as int)
    }

    pub fn new(period_nanos: u64) -> (r: RepeatingClock)
        requires
            period_nanos > 0,
        ensures
            r.wf(),
            r.period_nanos == period_nanos,
            r.elapsed_nanos == 0,
    {
        RepeatingClock { period_nanos, elapsed_nanos: 0 }
    }

    /// Adds `delta` nanoseconds of wall-clock time; returns whether at least
    /// one full period completed. One call fires at most once, however many
    /// periods `delta` spans.
    pub fn advance(&mut self, delta: u64) -> (fired: bool)
        requires
            old(self).wf(),
        ensures
            final(self).wf(),
            fired == old(self).fires(delta),
            final(self).period_nanos == old(self).period_nanos,
            final(self).elapsed_nanos == old(self).carried(delta),
    {
        let total: u128 = self.elapsed_nanos as u128 + delta as u128;
        let period: u128 = self.period_nanos as u128;
        self.elapsed_nanos = (total % period) as u64;
        total >= period
    }
}

} // verus!
