use vstd::prelude::*;

use crate::apu::divider::Divider;
use crate::apu::envelope::{Envelope, envelope_after_control};
use crate::apu::frame_counter::{FrameCounter, SequencerMode, period_spec};
use crate::apu::length_counter::{LengthCounter, length_table};
use crate::apu::sweep::{MAX_PERIOD, NegateMode, Sweep};
use crate::apu::timer::Timer;

verus! {

/// Which of the two pulse channels.
#[derive(Debug, Clone, Copy, PartialEq, Eq, Structural)]
pub enum PulseId {
    One,
    Two,
}

impl PulseId {
    fn negate_mode(self) -> (r: NegateMode)
        ensures
            r == (match self {
                PulseId::One => NegateMode::OneComplement,
                PulseId::Two => NegateMode::TwoComplement,
            }),
    {
        match self {
            PulseId::One => NegateMode::OneComplement,
            PulseId::Two => NegateMode::TwoComplement,
        }
    }
}

/// Step `clock` of duty pattern `duty`: 12.5%, 25%, 50% and 75% (inverted 25%).
pub open spec fn duty_bit(duty: u8, clock: u8) -> u8 {
    if duty == 0 {
        if clock == 1 { 1 } else { 0 }
    } else if duty == 1 {
        if clock == 1 || clock == 2 { 1 } else { 0 }
    } else if duty == 2 {
        if 1 <= clock <= 4 { 1 } else { 0 }
    } else {
        if clock == 1 || clock == 2 { 0 } else { 1 }
    }
}

/// Steps through the eight steps of a duty pattern.
#[derive(Debug, Clone, Copy, PartialEq, Eq, Structural)]
pub struct Sequencer {
    pub clock: u8,
    pub duty: u8,
}

impl Sequencer {
    pub open spec fn wf(&self) -> bool {
        self.clock < 8 && self.duty < 4
    }

    pub fn new() -> (r: Sequencer)
        ensures
            r.wf(),
            r.clock == 0 && r.duty == 0,
    {
        Sequencer { duty: 0, clock: 0 }
    }

    pub open spec fn ticked(self) -> Sequencer {
        Sequencer { clock: ((self.clock + 1) % 8) as u8, ..self }
    }

    pub fn tick(&mut self)
        requires
            old(self).wf(),
        ensures
            final(self).wf(),
            *final(self) == old(self).ticked(),
    {
        self.clock = (self.clock + 1) % 8;
    }

    pub fn set_duty(&mut self, duty: u8)
        requires
            old(self).wf(),
            duty < 4,
        ensures
            final(self).wf(),
            *final(self) == (Sequencer { duty, ..*old(self) }),
    {
        self.duty = duty;
    }

    pub fn reset(&mut self)
        requires
            old(self).wf(),
        ensures
            final(self).wf(),
            *final(self) == (Sequencer { clock: 0, ..*old(self) }),
    {
        self.clock = 0;
    }

    /// The current step of the pattern, 0 or 1.
    pub fn sample(&self) -> (r: u8)
        ensures
            r == duty_bit(self.duty, self.clock),
    {
        if self.duty == 0 {
            if self.clock == 1 { 1 } else { 0 }
        } else if self.duty == 1 {
            if self.clock == 1 || self.clock == 2 { 1 } else { 0 }
        } else if self.duty == 2 {
            if 1 <= self.clock && self.clock <= 4 { 1 } else { 0 }
        } else {
            if self.clock == 1 || self.clock == 2 { 0 } else { 1 }
        }
    }
}

/// A pulse (square wave) channel.
pub struct Pulse {
    pub timer: Timer,
    pub sequencer: Sequencer,
    pub frame_counter: FrameCounter,
    pub length_counter: LengthCounter,
    pub envelope: Envelope,
    pub sweep: Sweep,
    /// counts CPU cycles modulo 2: the timer runs at half the CPU rate
    pub cpu_clocks: u16,
}

impl Pulse {
    pub open spec fn wf(&self) -> bool {
        &&& self.timer.wf()
        &&& self.timer.period <= MAX_PERIOD
        &&& self.sequencer.wf()
        &&& self.frame_counter.wf()
        &&& self.envelope.wf()
        &&& self.sweep.wf()
        &&& self.cpu_clocks < 2
    }

    /// Silent: period under 8, length counter at zero, or sweep target past 0x7FF.
    pub open spec fn muted(&self) -> bool {
        self.timer.period < 8 || self.length_counter.counter == 0 || self.sweep.target(self.timer.period)
            > MAX_PERIOD
    }

    /// The output level 0..15.
    pub open spec fn sample_spec(&self) -> u8 {
        if self.muted() {
            0
        } else {
            (self.envelope.volume_spec() * duty_bit(self.sequencer.duty, self.sequencer.clock)) as u8
        }
    }

    pub fn new(id: PulseId) -> (r: Pulse)
        ensures
            r.wf(),
            r.timer.period == 0 && r.length_counter.counter == 0 && r.cpu_clocks == 0,
            !r.sweep.enable_flag && !r.frame_counter.quarter_frame && !r.frame_counter.half_frame,
            r.frame_counter.clocks == 0 && r.frame_counter.mode == SequencerMode::FourStep,
            r.sweep.negate_mode == (match id {
                PulseId::One => NegateMode::OneComplement,
                PulseId::Two => NegateMode::TwoComplement,
            }),
    {
        Pulse {
            timer: Timer::new(0),
            sequencer: Sequencer::new(),
            frame_counter: FrameCounter::new(),
            length_counter: LengthCounter::new(),
            envelope: Envelope::new(),
            sweep: Sweep::new(id.negate_mode()),
            cpu_clocks: 0,
        }
    }

    /// The channel once the pending frame pulses are applied: a quarter frame
    /// clocks the envelope, a half frame the sweep (which may set the timer)
    /// and the length counter.
    pub open spec fn handled(self) -> Pulse {
        let q = if self.frame_counter.quarter_frame {
            Pulse { envelope: self.envelope.ticked(), ..self }
        } else {
            self
        };
        if self.frame_counter.half_frame {
            Pulse {
                sweep: q.sweep.ticked(),
                timer: q.sweep.ticked_timer(q.timer),
                length_counter: q.length_counter.ticked(),
                ..q
            }
        } else {
            q
        }
    }

    /// The channel after one CPU cycle: on every other cycle the timer counts
    /// and, when it wraps, the duty sequencer steps; then the pending frame
    /// pulses are applied and the frame counter moves on.
    pub open spec fn ticked(self) -> Pulse {
        let a = if self.cpu_clocks == 0 {
            Pulse {
                timer: self.timer.ticked(),
                sequencer: if self.timer.fires() {
                    self.sequencer.ticked()
                } else {
                    self.sequencer
                },
                ..self
            }
        } else {
            self
        };
        let b = a.handled();
        Pulse {
            frame_counter: b.frame_counter.ticked(),
            cpu_clocks: ((self.cpu_clocks + 1) % 2) as u16,
            ..b
        }
    }

    /// The channel after `k` CPU cycles.
    pub open spec fn ticks(self, k: nat) -> Pulse
        decreases k,
    {
        if k == 0 {
            self
        } else {
            self.ticks((k - 1) as nat).ticked()
        }
    }

    /// One CPU cycle.
    pub fn tick(&mut self)
        requires
            old(self).wf(),
        ensures
            final(self).wf(),
            *final(self) == old(self).ticked(),
    {
        if self.cpu_clocks == 0 {
            if self.timer.tick() {
                self.sequencer.tick();
            }
        }
        self.handle_frame_signal();
        self.frame_counter.tick();
        self.cpu_clocks = (self.cpu_clocks + 1) % 2;
    }

    /// Applies the pending frame pulses.
    pub fn handle_frame_signal(&mut self)
        requires
            old(self).wf(),
        ensures
            final(self).wf(),
            *final(self) == old(self).handled(),
    {
        if self.frame_counter.is_quarter_frame() {
            self.envelope.tick();
        }
        if self.frame_counter.is_half_frame() {
            self.sweep.tick(&mut self.timer);
            self.length_counter.tick();
        }
    }

    fn is_mute(&self) -> (r: bool)
        requires
            self.wf(),
        ensures
            r == self.muted(),
    {
        self.timer.period() < 8 || self.length_counter.counter() == 0 || self.sweep.is_mute(&self.timer)
    }

    /// The output level 0..15: the envelope volume while the duty step is high,
    /// zero while muted.
    pub fn sample(&self) -> (r: u8)
        requires
            self.wf(),
        ensures
            r == self.sample_spec(),
            r <= 15,
    {
        if self.is_mute() {
            0
        } else {
            self.envelope.volume() * self.sequencer.sample()
        }
    }

    /// `post` is this channel after a write of `val` to `addr`.
    pub open spec fn store_post(&self, post: Pulse, addr: u16, val: u8) -> bool {
        &&& (post.wf())
        &&& (addr == 0 ==> post == (Pulse {
                sequencer: Sequencer { duty: (val >> 6) & 0x3, ..self.sequencer },
                length_counter: LengthCounter { halt: (val >> 5) & 0x1 != 0, ..self.length_counter },
                envelope: envelope_after_control(self.envelope, val),
                ..*self
            }))
        &&& (addr == 1 ==> post == (Pulse {
                sweep: Sweep {
                    divider: Divider { reload_value: (val >> 4) & 0x7, ..self.sweep.divider },
                    enable_flag: val & 0x80 != 0,
                    negate_flag: (val >> 3) & 0x1 != 0,
                    shift_counter: val & 0x7,
                    reload_flag: true,
                    ..self.sweep
                },
                ..*self
            }))
        &&& (addr == 2 ==> post == (Pulse {
                timer: Timer { period: (self.timer.period & 0x700) | (val as u16), clocks: 0 },
                ..*self
            }))
        &&& (addr == 3 ==> post == (Pulse {
                timer: Timer {
                    period: (self.timer.period & 0xff) | (((val & 0x7) as u16) << 8u16),
                    clocks: 0,
                },
                length_counter: LengthCounter {
                    counter: length_table(val >> 3),
                    ..self.length_counter
                },
                sequencer: Sequencer { clock: 0, ..self.sequencer },
                envelope: Envelope { start_flag: true, ..self.envelope },
                ..*self
            }))
        &&& (addr == 0x15 ==> post == (Pulse {
                length_counter: LengthCounter {
                    enabled: val & 0x01 != 0,
                    counter: if val & 0x01 != 0 {
                        self.length_counter.counter
                    } else {
                        0
                    },
                    ..self.length_counter
                },
                ..*self
            }))
        &&& (addr == 0x17 ==> post == (Pulse {
                frame_counter: FrameCounter {
                    mode: if val & 0x80 != 0 {
                        SequencerMode::FiveStep
                    } else {
                        SequencerMode::FourStep
                    },
                    clocks: 0,
                    quarter_frame: val & 0x80 != 0,
                    half_frame: val & 0x80 != 0,
                },
                ..*self
            }))
    }

    /// Register `addr` of the channel (0..3), the status bit (0x15) or the frame
    /// counter mode (0x17).
    pub fn store(&mut self, addr: u16, val: u8)
        requires
            old(self).wf(),
            addr <= 3 || addr == 0x15 || addr == 0x17,
        ensures
            old(self).store_post(*final(self), addr, val),
    {
        if addr == 0 {
            assert((val >> 6) & 0x3 < 4) by (bit_vector);
            assert(val & 0xf <= 15) by (bit_vector);
            self.sequencer.set_duty((val >> 6) & 0x3);
            let halt = ((val >> 5) & 0x1) != 0;
            self.length_counter.set_halt(halt);
            self.envelope.set_loop_flag(halt);
            self.envelope.set_constant_flag(((val >> 4) & 0x1) != 0);
            self.envelope.set_volume(val & 0xf);
        } else if addr == 1 {
            self.sweep.store(val);
        } else if addr == 2 {
            let p = self.timer.period();
            assert((p & 0x700) | (val as u16) <= 0x7ff) by (bit_vector);
            self.timer.set_period((p & 0x700) | (val as u16));
        } else if addr == 3 {
            let p = self.timer.period();
            assert((p & 0xff) | (((val & 0x7) as u16) << 8u16) <= 0x7ff) by (bit_vector);
            self.timer.set_period((p & 0xff) | (((val & 0x7) as u16) << 8u16));
            self.length_counter.load_with_index(val >> 3);
            self.sequencer.reset();
            self.envelope.set_start_flag();
        } else if addr == 0x15 {
            self.length_counter.set_enabled((val & 0x01) != 0);
        } else {
            let mode = if (val & 0x80) != 0 {
                SequencerMode::FiveStep
            } else {
                SequencerMode::FourStep
            };
            self.frame_counter.set_mode(mode);
        }
    }
}

/// A pulse channel whose period is under 8 and whose sweep is off keeps its
/// period and stays silent through any number of CPU cycles.
pub proof fn lemma_short_period_stays_silent(p: Pulse, k: nat)
    requires
        p.timer.period < 8,
        !p.sweep.enable_flag,
    ensures
        p.ticks(k).timer.period == p.timer.period,
        !p.ticks(k).sweep.enable_flag,
        p.ticks(k).sample_spec() == 0,
    decreases k,
{
    if k > 0 {
        lemma_short_period_stays_silent(p, (k - 1) as nat);
    }
}

/// Right after the frame counter is switched to five steps, one cycle
/// delivers one quarter-frame and one half-frame pulse: the envelope, the
/// sweep and the length counter are each clocked once, and the new count
/// carries no pulse.
pub proof fn lemma_five_step_immediate_clock(p: Pulse, post: Pulse, val: u8)
    requires
        p.wf(),
        p.store_post(post, 0x17, val),
        val & 0x80 != 0,
    ensures
        post.ticked().length_counter == post.length_counter.ticked(),
        post.ticked().envelope == post.envelope.ticked(),
        post.ticked().sweep == post.sweep.ticked(),
        post.ticked().frame_counter.clocks == 1,
        !post.ticked().frame_counter.quarter_frame,
        !post.ticked().frame_counter.half_frame,
{
}

/// With no pulse pending and the count at `c`, the next `k` cycles clock no
/// envelope, sweep or length counter as long as `c + k` stays at most 7457,
/// the first count that carries a pulse.
pub proof fn lemma_no_pulse_before_first_quarter(p: Pulse, k: nat)
    requires
        p.frame_counter.wf(),
        !p.frame_counter.quarter_frame,
        !p.frame_counter.half_frame,
        p.frame_counter.clocks + k <= 7457,
    ensures
        p.ticks(k).length_counter == p.length_counter,
        p.ticks(k).envelope == p.envelope,
        p.ticks(k).sweep == p.sweep,
        p.ticks(k).frame_counter.mode == p.frame_counter.mode,
        p.ticks(k).frame_counter.clocks == p.frame_counter.clocks + k,
        p.frame_counter.clocks + k < 7457 ==> !p.ticks(k).frame_counter.quarter_frame
            && !p.ticks(k).frame_counter.half_frame,
    decreases k,
{
    if k > 0 {
        lemma_no_pulse_before_first_quarter(p, (k - 1) as nat);
    }
}

} // verus!
