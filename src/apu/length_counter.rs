use vstd::prelude::*;

verus! {

/// The length-counter load table, indexed by the 5-bit field of register 3.
pub open spec fn length_table(index: u8) -> u8 {
    match index {
        0 => 10,
        1 => 254,
        2 => 20,
        3 => 2,
        4 => 40,
        5 => 4,
        6 => 80,
        7 => 6,
        8 => 160,
        9 => 8,
        10 => 60,
        11 => 10,
        12 => 14,
        13 => 12,
        14 => 26,
        15 => 14,
        16 => 12,
        17 => 16,
        18 => 24,
        19 => 18,
        20 => 48,
        21 => 20,
        22 => 96,
        23 => 22,
        24 => 192,
        25 => 24,
        26 => 72,
        27 => 26,
        28 => 16,
        29 => 28,
        30 => 32,
        _ => 30,
    }
}

fn length_of(index: u8) -> (r: u8)
    ensures
        r == length_table(index),
{
    match index {
        0 => 10,
        1 => 254,
        2 => 20,
        3 => 2,
        4 => 40,
        5 => 4,
        6 => 80,
        7 => 6,
        8 => 160,
        9 => 8,
        10 => 60,
        11 => 10,
        12 => 14,
        13 => 12,
        14 => 26,
        15 => 14,
        16 => 12,
        17 => 16,
        18 => 24,
        19 => 18,
        20 => 48,
        21 => 20,
        22 => 96,
        23 => 22,
        24 => 192,
        25 => 24,
        26 => 72,
        27 => 26,
        28 => 16,
        29 => 28,
        30 => 32,
        _ => 30,
    }
}

/// Silences a channel when it reaches zero.
#[derive(Debug, Clone, Copy, PartialEq, Eq, Structural)]
pub struct LengthCounter {
    pub enabled: bool,
    pub halt: bool,
    pub counter: u8,
}

impl LengthCounter {
    /// The counter after a half-frame clock.
    pub open spec fn ticked(self) -> LengthCounter {
        LengthCounter {
            counter: if !self.halt && self.counter > 0 {
                (self.counter - 1) as u8
            } else {
                self.counter
            },
            ..self
        }
    }

    pub fn new() -> (r: LengthCounter)
        ensures
            !r.enabled && !r.halt && r.counter == 0,
    {
        LengthCounter { enabled: false, halt: false, counter: 0 }
    }

    /// Half-frame clock: counts down unless halted or already zero.
    pub fn tick(&mut self)
        ensures
            *final(self) == old(self).ticked(),
    {
        if !self.halt && self.counter > 0 {
            self.counter = self.counter - 1;
        }
    }

    pub fn counter(&self) -> (r: u8)
        ensures
            r == self.counter,
    {
        self.counter
    }

    /// Loads the counter from the table.
    pub fn load_with_index(&mut self, length_index: u8)
        ensures
            *final(self) == (LengthCounter { counter: length_table(length_index), ..*old(self) }),
    {
        self.counter = length_of(length_index);
    }

    /// Enables the counter, or disables it and zeroes it.
    pub fn set_enabled(&mut self, enabled: bool)
        ensures
            *final(self) == (LengthCounter {
                enabled,
                counter: if enabled {
                    old(self).counter
                } else {
                    0
                },
                ..*old(self)
            }),
    {
        self.enabled = enabled;
        if !self.enabled {
            self.counter = 0;
        }
    }

    pub fn set_halt(&mut self, halt: bool)
        ensures
            *final(self) == (LengthCounter { halt, ..*old(self) }),
    {
        self.halt = halt;
    }
}

} // verus!
