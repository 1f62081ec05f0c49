use vstd::prelude::*;

use crate::apu::frame_counter::{FrameCounter, SequencerMode, period_spec};
use crate::apu::length_counter::{LengthCounter, length_table};
use crate::apu::timer::Timer;

verus! {

/// Step `clock` of the 32-step ramp 15, 14, ..., 0, 0, 1, ..., 15.
pub open spec fn ramp(clock: u8) -> u8 {
    if clock < 16 {
        (15 - clock) as u8
    } else {
        (clock - 16) as u8
    }
}

/// Walks the 32 steps of the triangle ramp.
#[derive(Debug, Clone, Copy, PartialEq, Eq, Structural)]
pub struct Sequencer {
    pub clock: u8,
}

impl Sequencer {
    pub open spec fn wf(&self) -> bool {
        self.clock < 32
    }

    pub fn new() -> (r: Sequencer)
        ensures
            r.wf(),
            r.clock == 0,
    {
        Sequencer { clock: 0 }
    }

    pub open spec fn ticked(self) -> Sequencer {
        Sequencer { clock: ((self.clock + 1) % 32) as u8 }
    }

    pub fn tick(&mut self)
        requires
            old(self).wf(),
        ensures
            final(self).wf(),
            *final(self) == old(self).ticked(),
    {
        self.clock = (self.clock + 1) % 32;
    }

    /// The current step of the ramp, 0..15.
    pub fn sample(&self) -> (r: u8)
        requires
            self.wf(),
        ensures
            r == ramp(self.clock),
            r <= 15,
    {
        if self.clock < 16 {
            15 - self.clock
        } else {
            self.clock - 16
        }
    }
}

/// The triangle's linear counter.
#[derive(Debug, Clone, Copy, PartialEq, Eq, Structural)]
pub struct LinearCounter {
    pub reload_value: u8,
    pub reload_flag: bool,
    pub control_flag: bool,
    pub counter: u8,
}

impl LinearCounter {
    fn new() -> (r: LinearCounter)
        ensures
            r == (LinearCounter { reload_value: 0, reload_flag: false, control_flag: false, counter: 0 }),
    {
        LinearCounter { reload_value: 0, reload_flag: false, control_flag: false, counter: 0 }
    }

    /// The counter after a quarter-frame clock: reloads while the reload flag
    /// is set, else counts down; the flag clears unless the control flag is set.
    pub open spec fn ticked(self) -> LinearCounter {
        LinearCounter {
            counter: if self.reload_flag {
                self.reload_value
            } else if self.counter > 0 {
                (self.counter - 1) as u8
            } else {
                0
            },
            reload_flag: self.reload_flag && self.control_flag,
            ..self
        }
    }

    fn tick(&mut self)
        ensures
            *final(self) == old(self).ticked(),
    {
        if self.reload_flag {
            self.counter = self.reload_value;
        } else if self.counter > 0 {
            self.counter = self.counter - 1;
        }
        if !self.control_flag {
            self.reload_flag = false;
        }
    }
}

/// The triangle channel.
pub struct Triangle {
    pub timer: Timer,
    pub sequencer: Sequencer,
    pub frame_counter: FrameCounter,
    pub length_counter: LengthCounter,
    pub linear_counter: LinearCounter,
}

impl Triangle {
    pub open spec fn wf(&self) -> bool {
        self.timer.wf() && self.sequencer.wf() && self.frame_counter.wf()
    }

    pub fn new() -> (r: Triangle)
        ensures
            r.wf(),
            r.sequencer.clock == 0 && r.timer.period == 0 && r.length_counter.counter == 0,
    {
        Triangle {
            timer: Timer::new(0),
            sequencer: Sequencer::new(),
            frame_counter: FrameCounter::new(),
            length_counter: LengthCounter::new(),
            linear_counter: LinearCounter::new(),
        }
    }

    /// The channel once the pending frame pulses are applied: a quarter frame
    /// clocks the linear counter, a half frame the length counter.
    pub open spec fn handled(self) -> Triangle {
        let q = if self.frame_counter.quarter_frame {
            Triangle { linear_counter: self.linear_counter.ticked(), ..self }
        } else {
            self
        };
        if self.frame_counter.half_frame {
            Triangle { length_counter: q.length_counter.ticked(), ..q }
        } else {
            q
        }
    }

    /// The channel after one CPU cycle: when the timer wraps the ramp steps,
    /// but only while both the linear counter and the length counter are
    /// nonzero; then the pending frame pulses are applied and the frame
    /// counter moves on.
    pub open spec fn ticked(self) -> Triangle {
        let a = Triangle {
            timer: self.timer.ticked(),
            sequencer: if self.timer.fires() && self.linear_counter.counter != 0
                && self.length_counter.counter != 0 {
                self.sequencer.ticked()
            } else {
                self.sequencer
            },
            ..self
        };
        let b = a.handled();
        Triangle { frame_counter: b.frame_counter.ticked(), ..b }
    }

    /// One CPU cycle.
    pub fn tick(&mut self)
        requires
            old(self).wf(),
        ensures
            final(self).wf(),
            *final(self) == old(self).ticked(),
    {
        if self.timer.tick() {
            if self.linear_counter.counter != 0 && self.length_counter.counter() != 0 {
                self.sequencer.tick();
            }
        }
        self.handle_frame_signal();
        self.frame_counter.tick();
    }

    /// Applies the pending frame pulses.
    pub fn handle_frame_signal(&mut self)
        requires
            old(self).wf(),
        ensures
            final(self).wf(),
            *final(self) == old(self).handled(),
    {
        if self.frame_counter.is_quarter_frame() {
            self.linear_counter.tick();
        }
        if self.frame_counter.is_half_frame() {
            self.length_counter.tick();
        }
    }

    /// The output level 0..15: the current step of the ramp.
    pub fn sample(&self) -> (r: u8)
        requires
            self.wf(),
        ensures
            r == ramp(self.sequencer.clock),
            r <= 15,
    {
        self.sequencer.sample()
    }

    /// `post` is this channel after a write of `val` to `addr`.
    pub open spec fn store_post(&self, post: Triangle, addr: u16, val: u8) -> bool {
        &&& (post.wf())
        &&& (addr == 0 ==> post == (Triangle {
                length_counter: LengthCounter { halt: val & 0x80 != 0, ..self.length_counter },
                linear_counter: LinearCounter {
                    control_flag: val & 0x80 != 0,
                    reload_value: val & 0x7f,
                    ..self.linear_counter
                },
                ..*self
            }))
        &&& (addr == 1 ==> post == *self)
        &&& (addr == 2 ==> post == (Triangle {
                timer: Timer { period: (self.timer.period & 0x700) | (val as u16), clocks: 0 },
                ..*self
            }))
        &&& (addr == 3 ==> post == (Triangle {
                timer: Timer {
                    period: (self.timer.period & 0xff) | (((val & 0x7) as u16) << 8u16),
                    clocks: 0,
                },
                length_counter: LengthCounter {
                    counter: length_table(val >> 3),
                    ..self.length_counter
                },
                linear_counter: LinearCounter { reload_flag: true, ..self.linear_counter },
                ..*self
            }))
        &&& (addr == 0x15 ==> post == (Triangle {
                length_counter: LengthCounter {
                    enabled: val & 0x01 != 0,
                    counter: if val & 0x01 != 0 {
                        self.length_counter.counter
                    } else {
                        0
                    },
                    ..self.length_counter
                },
                ..*self
            }))
        &&& (addr == 0x17 ==> post == (Triangle {
                frame_counter: FrameCounter {
                    mode: if val & 0x80 != 0 {
                        SequencerMode::FiveStep
                    } else {
                        SequencerMode::FourStep
                    },
                    clocks: 0,
                    quarter_frame: val & 0x80 != 0,
                    half_frame: val & 0x80 != 0,
                },
                ..*self
            }))
    }

    /// Register `addr` of the channel (0..3), the status bit (0x15) or the frame
    /// counter mode (0x17).
    pub fn store(&mut self, addr: u16, val: u8)
        requires
            old(self).wf(),
            addr <= 3 || addr == 0x15 || addr == 0x17,
        ensures
            old(self).store_post(*final(self), addr, val),
    {
        if addr == 0 {
            let halt = (val & 0x80) != 0;
            self.length_counter.set_halt(halt);
            self.linear_counter.control_flag = halt;
            self.linear_counter.reload_value = val & 0x7f;
        } else if addr == 1 {
        } else if addr == 2 {
            let p = self.timer.period();
            self.timer.set_period((p & 0x700) | (val as u16));
        } else if addr == 3 {
            let p = self.timer.period();
            self.timer.set_period((p & 0xff) | (((val & 0x7) as u16) << 8u16));
            self.length_counter.load_with_index(val >> 3);
            self.linear_counter.reload_flag = true;
        } else if addr == 0x15 {
            self.length_counter.set_enabled((val & 0x01) != 0);
        } else {
            let mode = if (val & 0x80) != 0 {
                SequencerMode::FiveStep
            } else {
                SequencerMode::FourStep
            };
            self.frame_counter.set_mode(mode);
        }
    }
}

} // verus!
