use vstd::prelude::*;

verus! {

/// A variable-rate timer: fires once every `period + 1` ticks.
#[derive(Debug, Clone, Copy, PartialEq, Eq, Structural)]
pub struct Timer {
    pub period: u16,
    pub clocks: u16,
}

impl Timer {
    pub open spec fn wf(&self) -> bool {
        self.clocks <= self.period
    }

    /// Whether the next tick wraps the count.
    pub open spec fn fires(self) -> bool {
        self.clocks >= self.period
    }

    /// The timer after one tick.
    pub open spec fn ticked(self) -> Timer {
        Timer {
            clocks: if self.fires() {
                0
            } else {
                (self.clocks + 1) as u16
            },
            ..self
        }
    }

    pub fn new(period: u16) -> (r: Timer)
        ensures
            r.period == period && r.clocks == 0,
            r.wf(),
    {
        Timer { period, clocks: 0 }
    }

    pub fn period(&self) -> (r: u16)
        ensures
            r == self.period,
    {
        self.period
    }

    /// Sets the period and restarts the count.
    pub fn set_period(&mut self, period: u16)
        ensures
            final(self).period == period && final(self).clocks == 0,
            final(self).wf(),
    {
        self.period = period;
        self.clocks = 0;
    }

    /// Counts one clock; true when the count wraps.
    pub fn tick(&mut self) -> (r: bool)
        requires
            old(self).wf(),
        ensures
            final(self).wf(),
            r == old(self).fires(),
            *final(self) == old(self).ticked(),
    {
        if self.clocks >= self.period {
            self.clocks = 0;
            true
        } else {
            self.clocks = self.clocks + 1;
            false
        }
    }
}

} // verus!
