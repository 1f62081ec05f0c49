use vstd::prelude::*;

verus! {

/// A controller button.
#[derive(Debug, Clone, Copy, PartialEq, Eq, Structural)]
pub enum Key {
    A,
    B,
    Select,
    Start,
    Up,
    Down,
    Left,
    Right,
}

/// The bit of a button in the key-state byte: A, B, Select, Start, Up, Down,
/// Left, Right from bit 0 up.
pub open spec fn key_mask(key: Key) -> u8 {
    match key {
        Key::A => 0x01,
        Key::B => 0x02,
        Key::Select => 0x04,
        Key::Start => 0x08,
        Key::Up => 0x10,
        Key::Down => 0x20,
        Key::Left => 0x40,
        Key::Right => 0x80,
    }
}

impl Key {
    fn mask(self) -> (r: u8)
        ensures
            r == key_mask(self),
    {
        match self {
            Key::A => 0x01,
            Key::B => 0x02,
            Key::Select => 0x04,
            Key::Start => 0x08,
            Key::Up => 0x10,
            Key::Down => 0x20,
            Key::Left => 0x40,
            Key::Right => 0x80,
        }
    }
}

/// Which buttons are held, one bit each.
#[derive(Debug, Clone, Copy, PartialEq, Eq, Structural)]
pub struct KeyState(pub u8);

impl Default for KeyState {
    /// No button held.
    fn default() -> (r: KeyState)
        ensures
            r.0 == 0,
    {
        KeyState(0)
    }
}

impl KeyState {
    /// Key down.
    pub fn press(&mut self, key: Key)
        ensures
            final(self).0 == old(self).0 | key_mask(key),
    {
        self.0 = self.0 | key.mask();
    }

    /// Key up.
    pub fn release(&mut self, key: Key)
        ensures
            final(self).0 == old(self).0 & !key_mask(key),
    {
        self.0 = self.0 & !key.mask();
    }

    pub fn as_u8(self) -> (r: u8)
        ensures
            r == self.0,
    {
        self.0
    }
}

/// The controller: the held keys, a shift register and the strobe latch.
#[derive(Debug, Clone, Copy, PartialEq, Eq, Structural)]
pub struct JoyPad {
    pub key_state: KeyState,
    pub buffer: u8,
    pub strobe_bit: bool,
}

impl JoyPad {
    /// The controller after a read of 0x4016: the register shifts right, and is
    /// reloaded from the keys while the strobe is high.
    pub open spec fn after_load(self) -> JoyPad {
        JoyPad {
            buffer: if self.strobe_bit {
                self.key_state.0
            } else {
                self.buffer >> 1
            },
            ..self
        }
    }

    /// The controller after a write of `value` to 0x4016: bit 0 is the strobe.
    pub open spec fn after_store(self, value: u8) -> JoyPad {
        JoyPad {
            strobe_bit: value & 1 != 0,
            buffer: if value & 1 != 0 {
                self.key_state.0
            } else {
                self.buffer
            },
            ..self
        }
    }

    pub fn new() -> (r: JoyPad)
        ensures
            r == (JoyPad { key_state: KeyState(0), buffer: 0, strobe_bit: false }),
    {
        JoyPad { key_state: KeyState(0), buffer: 0, strobe_bit: false }
    }

    /// Key down.
    pub fn press(&mut self, key: Key)
        ensures
            *final(self) == (JoyPad { key_state: KeyState(old(self).key_state.0 | key_mask(key)), ..*old(self) }),
    {
        self.key_state.press(key);
    }

    /// Key up.
    pub fn release(&mut self, key: Key)
        ensures
            *final(self) == (JoyPad { key_state: KeyState(old(self).key_state.0 & !key_mask(key)), ..*old(self) }),
    {
        self.key_state.release(key);
    }

    pub fn set_key_state(&mut self, key_state: KeyState)
        ensures
            *final(self) == (JoyPad { key_state, ..*old(self) }),
    {
        self.key_state = key_state;
    }

    /// Reads 0x4016: bit 0 of the shift register, which then shifts.
    pub fn load(&mut self) -> (r: u8)
        ensures
            r == old(self).buffer & 1,
            *final(self) == old(self).after_load(),
    {
        let result = self.buffer & 0x1;
        self.buffer = self.buffer >> 1;
        self.update_buffer();
        result
    }

    /// Writes 0x4016.
    pub fn store(&mut self, value: u8)
        ensures
            *final(self) == old(self).after_store(value),
    {
        self.strobe_bit = value & 1 != 0;
        self.update_buffer();
    }

    fn update_buffer(&mut self)
        ensures
            *final(self) == (JoyPad {
                buffer: if old(self).strobe_bit {
                    old(self).key_state.0
                } else {
                    old(self).buffer
                },
                ..*old(self)
            }),
    {
        if self.strobe_bit {
            self.buffer = self.key_state.as_u8();
        }
    }
}

} // verus!
