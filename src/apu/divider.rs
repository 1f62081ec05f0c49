use vstd::prelude::*;

verus! {

/// A down-counter that fires and reloads when it passes zero.
#[derive(Debug, Clone, Copy, PartialEq, Eq, Structural)]
pub struct Divider {
    pub reload_value: u8,
    pub counter: u8,
}

impl Divider {
    /// Whether the next tick fires.
    pub open spec fn fires(self) -> bool {
        self.counter == 0
    }

    /// The divider after one tick.
    pub open spec fn ticked(self) -> Divider {
        Divider {
            counter: if self.counter == 0 {
                self.reload_value
            } else {
                (self.counter - 1) as u8
            },
            ..self
        }
    }

    pub fn new() -> (r: Divider)
        ensures
            r.reload_value == 0 && r.counter == 0,
    {
        Divider { reload_value: 0, counter: 0 }
    }

    /// Counts down; at zero reloads and returns true.
    pub fn tick(&mut self) -> (r: bool)
        ensures
            r == old(self).fires(),
            *final(self) == old(self).ticked(),
    {
        if self.counter == 0 {
            self.counter = self.reload_value;
            true
        } else {
            self.counter = self.counter - 1;
            false
        }
    }

    pub fn reset(&mut self)
        ensures
            *final(self) == (Divider { counter: old(self).reload_value, ..*old(self) }),
    {
        self.counter = self.reload_value;
    }

    pub fn set_reload_value(&mut self, value: u8)
        ensures
            *final(self) == (Divider { reload_value: value, ..*old(self) }),
    {
        self.reload_value = value;
    }
}

} // verus!
