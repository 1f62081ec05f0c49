use vstd::prelude::*;

use crate::apu::envelope::{Envelope, MAX_DECAY, envelope_after_control};
use crate::apu::frame_counter::{FrameCounter, SequencerMode, period_spec};
use crate::apu::length_counter::{LengthCounter, length_table};
use crate::apu::timer::Timer;

verus! {

/// The timer periods selected by the low four bits of register 2.
pub open spec fn noise_period(index: u8) -> u16 {
    match index {
        0 => 4,
        1 => 8,
        2 => 16,
        3 => 32,
        4 => 64,
        5 => 96,
        6 => 128,
        7 => 160,
        8 => 202,
        9 => 254,
        10 => 380,
        11 => 508,
        12 => 762,
        13 => 1016,
        14 => 2034,
        _ => 4068,
    }
}

fn period_of(index: u8) -> (r: u16)
    ensures
        r == noise_period(index),
{
    match index {
        0 => 4,
        1 => 8,
        2 => 16,
        3 => 32,
        4 => 64,
        5 => 96,
        6 => 128,
        7 => 160,
        8 => 202,
        9 => 254,
        10 => 380,
        11 => 508,
        12 => 762,
        13 => 1016,
        14 => 2034,
        _ => 4068,
    }
}

/// The LFSR after one step: the feedback bit (bit 0 xor bit 1, or bit 6 in
/// mode 1) enters at bit 14 as the register shifts right.
pub open spec fn lfsr_step(state: u16, mode_flag: bool) -> u16 {
    let tap: u16 = if mode_flag {
        6
    } else {
        1
    };
    (((state & 1) ^ ((state >> tap) & 1)) << 14u16) | (state >> 1u16)
}

/// The 15-bit linear-feedback shift register.
#[derive(Debug, Clone, Copy, PartialEq, Eq, Structural)]
pub struct Sequencer {
    pub state: u16,
    pub mode_flag: bool,
}

impl Sequencer {
    fn new() -> (r: Sequencer)
        ensures
            r == (Sequencer { state: 1, mode_flag: false }),
    {
        Sequencer { state: 1, mode_flag: false }
    }

    fn tick(&mut self)
        ensures
            *final(self) == (Sequencer { state: lfsr_step(old(self).state, old(self).mode_flag), ..*old(self) }),
    {
        let tap: u16 = if self.mode_flag {
            6
        } else {
            1
        };
        let s = self.state;
        self.state = (((s & 1) ^ ((s >> tap) & 1)) << 14u16) | (s >> 1u16);
    }

    fn set_mode_flag(&mut self, flag: bool)
        ensures
            *final(self) == (Sequencer { mode_flag: flag, ..*old(self) }),
    {
        self.mode_flag = flag;
    }
}

/// The noise channel.
pub struct Noise {
    pub timer: Timer,
    pub sequencer: Sequencer,
    pub frame_counter: FrameCounter,
    pub length_counter: LengthCounter,
    pub envelope: Envelope,
}

impl Noise {
    pub open spec fn wf(&self) -> bool {
        self.timer.wf() && self.frame_counter.wf() && self.envelope.wf()
    }

    /// The output level 0..15: the envelope volume while bit 0 of the LFSR is
    /// set, zero while the length counter is at zero.
    pub open spec fn sample_spec(&self) -> u8 {
        if self.length_counter.counter == 0 || self.sequencer.state & 1 == 0 {
            0
        } else {
            self.envelope.volume_spec()
        }
    }

    pub fn new() -> (r: Noise)
        ensures
            r.wf(),
            r.sequencer.state == 1 && !r.sequencer.mode_flag,
            r.timer.period == 0 && r.length_counter.counter == 0,
    {
        Noise {
            timer: Timer::new(0),
            sequencer: Sequencer::new(),
            frame_counter: FrameCounter::new(),
            length_counter: LengthCounter::new(),
            envelope: Envelope::new(),
        }
    }

    /// The channel once the pending frame pulses are applied: a quarter frame
    /// clocks the envelope, a half frame the length counter.
    pub open spec fn handled(self) -> Noise {
        let q = if self.frame_counter.quarter_frame {
            Noise { envelope: self.envelope.ticked(), ..self }
        } else {
            self
        };
        if self.frame_counter.half_frame {
            Noise { length_counter: q.length_counter.ticked(), ..q }
        } else {
            q
        }
    }

    /// The channel after one CPU cycle: when the timer wraps the LFSR steps;
    /// then the pending frame pulses are applied and the frame counter moves on.
    pub open spec fn ticked(self) -> Noise {
        let a = Noise {
            timer: self.timer.ticked(),
            sequencer: if self.timer.fires() {
                Sequencer { state: lfsr_step(self.sequencer.state, self.sequencer.mode_flag), ..self.sequencer }
            } else {
                self.sequencer
            },
            ..self
        };
        let b = a.handled();
        Noise { frame_counter: b.frame_counter.ticked(), ..b }
    }

    /// One CPU cycle.
    pub fn tick(&mut self)
        requires
            old(self).wf(),
        ensures
            final(self).wf(),
            *final(self) == old(self).ticked(),
    {
        if self.timer.tick() {
            self.sequencer.tick();
        }
        self.handle_frame_signal();
        self.frame_counter.tick();
    }

    /// Applies the pending frame pulses.
    pub fn handle_frame_signal(&mut self)
        requires
            old(self).wf(),
        ensures
            final(self).wf(),
            *final(self) == old(self).handled(),
    {
        if self.frame_counter.is_quarter_frame() {
            self.envelope.tick();
        }
        if self.frame_counter.is_half_frame() {
            self.length_counter.tick();
        }
    }

    /// The output level 0..15.
    pub fn sample(&self) -> (r: u8)
        requires
            self.wf(),
        ensures
            r == self.sample_spec(),
            r <= MAX_DECAY,
    {
        if self.length_counter.counter() == 0 || self.sequencer.state & 1 == 0 {
            0
        } else {
            self.envelope.volume()
        }
    }

    /// `post` is this channel after a write of `val` to `addr`.
    pub open spec fn store_post(&self, post: Noise, addr: u16, val: u8) -> bool {
        &&& (post.wf())
        &&& (addr == 0 ==> post == (Noise {
                length_counter: LengthCounter { halt: (val >> 5) & 0x1 != 0, ..self.length_counter },
                envelope: envelope_after_control(self.envelope, val),
                ..*self
            }))
        &&& (addr == 1 ==> post == *self)
        &&& (addr == 2 ==> post == (Noise {
                timer: Timer { period: noise_period(val & 0xf), clocks: 0 },
                sequencer: Sequencer { mode_flag: val & 0x80 != 0, ..self.sequencer },
                ..*self
            }))
        &&& (addr == 3 ==> post == (Noise {
                length_counter: LengthCounter { counter: length_table(val >> 3), ..self.length_counter },
                envelope: Envelope { start_flag: true, ..self.envelope },
                ..*self
            }))
        &&& (addr == 0x15 ==> post == (Noise {
                length_counter: LengthCounter {
                    enabled: val & 0x01 != 0,
                    counter: if val & 0x01 != 0 {
                        self.length_counter.counter
                    } else {
                        0
                    },
                    ..self.length_counter
                },
                ..*self
            }))
        &&& (addr == 0x17 ==> post == (Noise {
                frame_counter: FrameCounter {
                    mode: if val & 0x80 != 0 {
                        SequencerMode::FiveStep
                    } else {
                        SequencerMode::FourStep
                    },
                    clocks: 0,
                    quarter_frame: val & 0x80 != 0,
                    half_frame: val & 0x80 != 0,
                },
                ..*self
            }))
    }

    /// Register `addr` of the channel (0..3), the status bit (0x15) or the frame
    /// counter mode (0x17).
    pub fn store(&mut self, addr: u16, val: u8)
        requires
            old(self).wf(),
            addr <= 3 || addr == 0x15 || addr == 0x17,
        ensures
            old(self).store_post(*final(self), addr, val),
    {
        if addr == 0 {
            assert(val & 0xf <= 15) by (bit_vector);
            let halt = ((val >> 5) & 0x1) != 0;
            self.length_counter.set_halt(halt);
            self.envelope.set_loop_flag(halt);
            self.envelope.set_constant_flag(((val >> 4) & 0x1) != 0);
            self.envelope.set_volume(val & 0xf);
        } else if addr == 1 {
        } else if addr == 2 {
            self.sequencer.set_mode_flag((val & 0x80) != 0);
            self.timer.set_period(period_of(val & 0xf));
        } else if addr == 3 {
            self.length_counter.load_with_index(val >> 3);
            self.envelope.set_start_flag();
        } else if addr == 0x15 {
            self.length_counter.set_enabled((val & 0x01) != 0);
        } else {
            let mode = if (val & 0x80) != 0 {
                SequencerMode::FiveStep
            } else {
                SequencerMode::FourStep
            };
            self.frame_counter.set_mode(mode);
        }
    }
}

} // verus!
