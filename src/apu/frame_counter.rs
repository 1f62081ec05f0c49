use vstd::prelude::*;

verus! {

/// The two sequences of the frame counter.
#[derive(Debug, Clone, Copy, PartialEq, Eq, Structural)]
pub enum SequencerMode {
    FourStep,
    FiveStep,
}

/// CPU cycles in one round of the sequence.
pub open spec fn period_spec(mode: SequencerMode) -> u16 {
    match mode {
        SequencerMode::FourStep => 29830,
        SequencerMode::FiveStep => 37282,
    }
}

/// The cycles of a round at which a quarter-frame pulse comes.
pub open spec fn quarter_spec(mode: SequencerMode, cycle: u16) -> bool {
    cycle == 7457 || cycle == 14913 || cycle == 22371 || (mode == SequencerMode::FourStep
        && cycle == 29829) || (mode == SequencerMode::FiveStep && cycle == 37281)
}

/// The cycles of a round at which a half-frame pulse comes.
pub open spec fn half_spec(mode: SequencerMode, cycle: u16) -> bool {
    cycle == 14913 || (mode == SequencerMode::FourStep && cycle == 29829) || (mode
        == SequencerMode::FiveStep && cycle == 37281)
}

impl SequencerMode {
    fn period(self) -> (r: u16)
        ensures
            r == period_spec(self),
    {
        match self {
            SequencerMode::FourStep => 29830,
            SequencerMode::FiveStep => 37282,
        }
    }

    fn is_quarter_frame(self, cycle: u16) -> (r: bool)
        ensures
            r == quarter_spec(self, cycle),
    {
        match (self, cycle) {
            (_, 7457) => true,
            (_, 14913) => true,
            (_, 22371) => true,
            (SequencerMode::FourStep, 29829) => true,
            (SequencerMode::FiveStep, 37281) => true,
            _ => false,
        }
    }

    fn is_half_frame(self, cycle: u16) -> (r: bool)
        ensures
            r == half_spec(self, cycle),
    {
        match (self, cycle) {
            (_, 14913) => true,
            (SequencerMode::FourStep, 29829) => true,
            (SequencerMode::FiveStep, 37281) => true,
            _ => false,
        }
    }
}

/// Divider producing quarter-frame and half-frame pulses.
#[derive(Debug, Clone, Copy, PartialEq, Eq, Structural)]
pub struct FrameCounter {
    pub mode: SequencerMode,
    pub clocks: u16,
    pub quarter_frame: bool,
    pub half_frame: bool,
}

impl FrameCounter {
    pub open spec fn wf(&self) -> bool {
        self.clocks < period_spec(self.mode)
    }

    /// The counter after one CPU cycle: the count moves on, wrapping at the end
    /// of the round, and the pulses are those of the new count.
    pub open spec fn ticked(self) -> FrameCounter {
        let c = if self.clocks + 1 >= period_spec(self.mode) {
            0
        } else {
            (self.clocks + 1) as u16
        };
        FrameCounter {
            mode: self.mode,
            clocks: c,
            quarter_frame: quarter_spec(self.mode, c),
            half_frame: half_spec(self.mode, c),
        }
    }

    pub fn new() -> (r: FrameCounter)
        ensures
            r.wf(),
            r == (FrameCounter {
                mode: SequencerMode::FourStep,
                clocks: 0,
                quarter_frame: false,
                half_frame: false,
            }),
    {
        FrameCounter { mode: SequencerMode::FourStep, clocks: 0, quarter_frame: false, half_frame: false }
    }

    /// One CPU cycle: the count moves on, wrapping at the end of the round, and
    /// the pulses are those of the new count.
    pub fn tick(&mut self)
        requires
            old(self).wf(),
        ensures
            final(self).wf(),
            *final(self) == old(self).ticked(),
    {
        self.clocks = self.clocks + 1;
        if self.clocks >= self.mode.period() {
            self.clocks = 0;
        }
        self.quarter_frame = self.mode.is_quarter_frame(self.clocks);
        self.half_frame = self.mode.is_half_frame(self.clocks);
    }

    pub fn is_quarter_frame(&self) -> (r: bool)
        ensures
            r == self.quarter_frame,
    {
        self.quarter_frame
    }

    pub fn is_half_frame(&self) -> (r: bool)
        ensures
            r == self.half_frame,
    {
        self.half_frame
    }

    /// Restarts the sequence in `mode`; the five-step mode delivers a quarter-frame
    /// and a half-frame pulse at once.
    pub fn set_mode(&mut self, mode: SequencerMode)
        ensures
            final(self).wf(),
            *final(self) == (FrameCounter {
                mode,
                clocks: 0,
                quarter_frame: mode == SequencerMode::FiveStep,
                half_frame: mode == SequencerMode::FiveStep,
            }),
    {
        self.mode = mode;
        self.clocks = 0;
        self.quarter_frame = mode == SequencerMode::FiveStep;
        self.half_frame = mode == SequencerMode::FiveStep;
    }
}

} // verus!
