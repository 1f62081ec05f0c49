use vstd::prelude::*;

use crate::apu::divider::Divider;

verus! {

/// Highest decay level.
pub const MAX_DECAY: u8 = 15;

/// The 4-bit decay level of an envelope.
#[derive(Debug, Clone, Copy, PartialEq, Eq, Structural)]
pub struct DecayCounter {
    pub decay: u8,
    pub loop_flag: bool,
}

impl DecayCounter {
    /// The level after the divider fires: one lower, or back to 15 when looping.
    pub open spec fn ticked(self) -> DecayCounter {
        DecayCounter {
            decay: if self.decay > 0 {
                (self.decay - 1) as u8
            } else if self.loop_flag {
                MAX_DECAY
            } else {
                0
            },
            ..self
        }
    }

    fn new() -> (r: DecayCounter)
        ensures
            r.decay == MAX_DECAY && !r.loop_flag,
    {
        DecayCounter { decay: MAX_DECAY, loop_flag: false }
    }

    fn reset_decay(&mut self)
        ensures
            *final(self) == (DecayCounter { decay: MAX_DECAY, ..*old(self) }),
    {
        self.decay = MAX_DECAY;
    }

    /// Counts down; at zero reloads to 15 when looping.
    fn tick(&mut self)
        ensures
            *final(self) == old(self).ticked(),
    {
        if self.decay > 0 {
            self.decay = self.decay - 1;
        } else if self.loop_flag {
            self.decay = MAX_DECAY;
        }
    }
}

/// The envelope after a write of `val` to register 0: loop flag (bit 5),
/// constant flag (bit 4) and the 4-bit volume, which is also the divider period.
pub open spec fn envelope_after_control(e: Envelope, val: u8) -> Envelope {
    Envelope {
        decay: DecayCounter { loop_flag: (val >> 5) & 0x1 != 0, ..e.decay },
        constant_flag: (val >> 4) & 0x1 != 0,
        constant_volume: val & 0xf,
        divider: Divider { reload_value: val & 0xf, ..e.divider },
        ..e
    }
}

/// Volume envelope of the pulse and noise channels.
#[derive(Debug, Clone, Copy, PartialEq, Eq, Structural)]
pub struct Envelope {
    pub divider: Divider,
    pub decay: DecayCounter,
    pub start_flag: bool,
    pub constant_volume: u8,
    pub constant_flag: bool,
}

impl Envelope {
    pub open spec fn wf(&self) -> bool {
        self.decay.decay <= MAX_DECAY && self.constant_volume <= MAX_DECAY
    }

    /// The output level: the programmed volume when constant, else the decay.
    pub open spec fn volume_spec(&self) -> u8 {
        if self.constant_flag {
            self.constant_volume
        } else {
            self.decay.decay
        }
    }

    pub fn new() -> (r: Envelope)
        ensures
            r.wf(),
            r.start_flag && !r.constant_flag && r.constant_volume == 0,
            r.decay.decay == MAX_DECAY && !r.decay.loop_flag,
            r.divider == (Divider { reload_value: 0, counter: 0 }),
    {
        Envelope {
            divider: Divider::new(),
            decay: DecayCounter::new(),
            start_flag: true,
            constant_volume: 0,
            constant_flag: false,
        }
    }

    /// Sets the 4-bit volume, which is also the divider's period.
    pub fn set_volume(&mut self, v: u8)
        requires
            old(self).wf(),
            v <= MAX_DECAY,
        ensures
            final(self).wf(),
            *final(self) == (Envelope {
                divider: Divider { reload_value: v, ..old(self).divider },
                constant_volume: v,
                ..*old(self)
            }),
    {
        self.divider.set_reload_value(v);
        self.constant_volume = v;
    }

    pub fn set_constant_flag(&mut self, flag: bool)
        ensures
            *final(self) == (Envelope { constant_flag: flag, ..*old(self) }),
    {
        self.constant_flag = flag;
    }

    pub fn set_loop_flag(&mut self, flag: bool)
        ensures
            *final(self) == (Envelope { decay: DecayCounter { loop_flag: flag, ..old(self).decay }, ..*old(self) }),
    {
        self.decay.loop_flag = flag;
    }

    pub fn set_start_flag(&mut self)
        ensures
            *final(self) == (Envelope { start_flag: true, ..*old(self) }),
    {
        self.start_flag = true;
    }

    /// The envelope after a quarter-frame clock: a set start flag is cleared,
    /// the decay reloaded to 15 and the divider reset; otherwise the divider
    /// counts and, when it fires, the decay counts down (or loops back to 15).
    pub open spec fn ticked(self) -> Envelope {
        if self.start_flag {
            Envelope {
                start_flag: false,
                decay: DecayCounter { decay: MAX_DECAY, ..self.decay },
                divider: Divider { counter: self.divider.reload_value, ..self.divider },
                ..self
            }
        } else {
            Envelope {
                divider: self.divider.ticked(),
                decay: if self.divider.fires() {
                    self.decay.ticked()
                } else {
                    self.decay
                },
                ..self
            }
        }
    }

    /// Quarter-frame clock.
    pub fn tick(&mut self)
        requires
            old(self).wf(),
        ensures
            final(self).wf(),
            *final(self) == old(self).ticked(),
    {
        if self.start_flag {
            self.start_flag = false;
            self.decay.reset_decay();
            self.divider.reset();
            return;
        }
        if self.divider.tick() {
            self.decay.tick();
        }
    }

    /// The output level 0..15.
    pub fn volume(&self) -> (r: u8)
        requires
            self.wf(),
        ensures
            r == self.volume_spec(),
            r <= MAX_DECAY,
    {
        if self.constant_flag {
            self.constant_volume
        } else {
            self.decay.decay
        }
    }
}

} // verus!
