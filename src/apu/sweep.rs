use vstd::prelude::*;

use crate::apu::divider::Divider;
use crate::apu::timer::Timer;

verus! {

/// How a negated sweep subtracts: pulse 1 adds the ones' complement of the
/// change, pulse 2 the two's complement.
#[derive(Debug, Clone, Copy, PartialEq, Eq, Structural)]
pub enum NegateMode {
    OneComplement,
    TwoComplement,
}

/// Largest period that a sweep keeps sounding.
pub const MAX_PERIOD: u16 = 0x7ff;

/// The period that a sweep moves towards from `period`.
pub open spec fn target_spec(period: u16, shift: u8, negate: bool, mode: NegateMode) -> int {
    let amount = period as int / pow2(shift as nat) as int;
    if !negate {
        period + amount
    } else {
        match mode {
            NegateMode::OneComplement => if amount + 1 > period {
                0
            } else {
                period - amount - 1
            },
            NegateMode::TwoComplement => period - amount,
        }
    }
}

pub open spec fn pow2(n: nat) -> nat
    decreases n,
{
    if n == 0 {
        1
    } else {
        2 * pow2((n - 1) as nat)
    }
}

/// Sweep unit of a pulse channel.
#[derive(Debug, Clone, Copy, PartialEq, Eq, Structural)]
pub struct Sweep {
    pub divider: Divider,
    pub negate_flag: bool,
    pub enable_flag: bool,
    pub shift_counter: u8,
    pub reload_flag: bool,
    pub negate_mode: NegateMode,
}

proof fn lemma_shift_is_div(p: u16, s: u8)
    requires
        s < 8,
    ensures
        (p >> s) as int == p as int / pow2(s as nat) as int,
        p as int / pow2(s as nat) as int <= p,
    decreases s,
{
    reveal_with_fuel(pow2, 9);
    if s == 0 {
        assert(p >> 0u8 == p) by (bit_vector);
    } else if s == 1 {
        assert(p >> 1u8 == p / 2) by (bit_vector);
    } else if s == 2 {
        assert(p >> 2u8 == p / 4) by (bit_vector);
    } else if s == 3 {
        assert(p >> 3u8 == p / 8) by (bit_vector);
    } else if s == 4 {
        assert(p >> 4u8 == p / 16) by (bit_vector);
    } else if s == 5 {
        assert(p >> 5u8 == p / 32) by (bit_vector);
    } else if s == 6 {
        assert(p >> 6u8 == p / 64) by (bit_vector);
    } else {
        assert(p >> 7u8 == p / 128) by (bit_vector);
    }
}

impl Sweep {
    pub open spec fn wf(&self) -> bool {
        self.shift_counter < 8
    }

    /// The target period for the timer's current period.
    pub open spec fn target(&self, period: u16) -> int {
        target_spec(period, self.shift_counter, self.negate_flag, self.negate_mode)
    }

    /// Whether a half-frame clock moves the timer to the target period: the
    /// divider fires, the sweep is on and the target is at most 0x7FF.
    pub open spec fn moves(self, timer: Timer) -> bool {
        self.divider.fires() && self.enable_flag && self.target(timer.period) <= MAX_PERIOD
    }

    /// The timer after a half-frame clock of this sweep.
    pub open spec fn ticked_timer(self, timer: Timer) -> Timer {
        if self.moves(timer) {
            Timer { period: self.target(timer.period) as u16, clocks: 0 }
        } else {
            timer
        }
    }

    /// The sweep after a half-frame clock: the divider counts, and a pending
    /// reload resets it.
    pub open spec fn ticked(self) -> Sweep {
        Sweep {
            divider: if self.reload_flag {
                Divider { counter: self.divider.reload_value, ..self.divider }
            } else {
                self.divider.ticked()
            },
            reload_flag: false,
            ..self
        }
    }

    pub fn new(negate_mode: NegateMode) -> (r: Sweep)
        ensures
            r.wf(),
            r == (Sweep {
                divider: Divider { reload_value: 0, counter: 0 },
                negate_flag: false,
                enable_flag: false,
                shift_counter: 0,
                reload_flag: false,
                negate_mode,
            }),
    {
        Sweep {
            divider: Divider::new(),
            negate_flag: false,
            enable_flag: false,
            shift_counter: 0,
            reload_flag: false,
            negate_mode,
        }
    }

    /// The target period; requires a period of at most 11 bits.
    pub fn target_period(&self, timer: &Timer) -> (r: u16)
        requires
            self.wf(),
            timer.period <= MAX_PERIOD,
        ensures
            r == self.target(timer.period),
    {
        let period = timer.period();
        proof {
            lemma_shift_is_div(period, self.shift_counter);
        }
        let amount = period >> self.shift_counter;
        if !self.negate_flag {
            period + amount
        } else {
            match self.negate_mode {
                NegateMode::OneComplement => if amount + 1 > period {
                    0
                } else {
                    period - amount - 1
                },
                NegateMode::TwoComplement => period - amount,
            }
        }
    }

    /// The sweep silences the channel when its target passes 0x7FF.
    pub fn is_mute(&self, timer: &Timer) -> (r: bool)
        requires
            self.wf(),
            timer.period <= MAX_PERIOD,
        ensures
            r == (self.target(timer.period) > MAX_PERIOD),
    {
        self.target_period(timer) > MAX_PERIOD
    }

    /// Half-frame clock: when the divider fires, the sweep is on and the target
    /// sounds, the timer takes the target period; a pending reload resets the divider.
    pub fn tick(&mut self, timer: &mut Timer)
        requires
            old(self).wf(),
            old(timer).period <= MAX_PERIOD,
            old(timer).wf(),
        ensures
            final(self).wf(),
            final(timer).wf(),
            final(timer).period <= MAX_PERIOD,
            *final(timer) == old(self).ticked_timer(*old(timer)),
            *final(self) == old(self).ticked(),
    {
        let fires = self.divider.tick();
        if fires && self.enable_flag && !self.is_mute(timer) {
            let target = self.target_period(timer);
            timer.set_period(target);
        }
        if self.reload_flag {
            self.reload_flag = false;
            self.divider.reset();
        }
    }

    /// Register 1 of a pulse channel: enable (bit 7), divider period (bits 4-6),
    /// negate (bit 3) and shift (bits 0-2); schedules a reload.
    pub fn store(&mut self, val: u8)
        ensures
            final(self).wf(),
            *final(self) == (Sweep {
                divider: Divider { reload_value: (val >> 4) & 0x7, ..old(self).divider },
                enable_flag: val & 0x80 != 0,
                negate_flag: (val >> 3) & 0x1 != 0,
                shift_counter: val & 0x7,
                reload_flag: true,
                ..*old(self)
            }),
    {
        assert(val & 0x7 < 8) by (bit_vector);
        self.reload_flag = true;
        self.enable_flag = (val & 0x80) != 0;
        self.divider.set_reload_value((val >> 4) & 0x7);
        self.negate_flag = ((val >> 3) & 0x1) != 0;
        self.shift_counter = val & 0x7;
    }
}

} // verus!
