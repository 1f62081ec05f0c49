use vstd::prelude::*;

verus! {

/// Carry flag mask.
pub const CARRY: u8 = 0x01;
/// Zero flag mask.
pub const ZERO: u8 = 0x02;
/// Interrupt-disable flag mask.
pub const INTERRUPT: u8 = 0x04;
/// Decimal flag mask (kept, without arithmetic effect).
pub const DECIMAL: u8 = 0x08;
/// Break flag mask (only present in pushed copies).
pub const BREAK: u8 = 0x10;
/// Bit 5, which always reads as one.
pub const UNUSED: u8 = 0x20;
/// Overflow flag mask.
pub const OVERFLOW: u8 = 0x40;
/// Negative flag mask.
pub const NEGATIVE: u8 = 0x80;

/// `p` with the bits of `mask` set when `val` holds and cleared otherwise.
pub open spec fn with_flag(p: u8, mask: u8, val: bool) -> u8 {
    if val {
        p | mask
    } else {
        p & !mask
    }
}

/// Whether any bit of `mask` is set in `p`.
pub open spec fn has_flag(p: u8, mask: u8) -> bool {
    p & mask != 0
}

/// The masks of the seven flags other than bit 5.
pub open spec fn is_flag_mask(mask: u8) -> bool {
    mask == CARRY || mask == ZERO || mask == INTERRUPT || mask == DECIMAL || mask == BREAK
        || mask == OVERFLOW || mask == NEGATIVE
}

/// Setting or clearing a flag other than bit 5 keeps bit 5 set.
pub proof fn lemma_with_flag_keeps_unused(p: u8, mask: u8, val: bool)
    requires
        p & 0x20 == 0x20,
        is_flag_mask(mask),
    ensures
        with_flag(p, mask, val) & 0x20 == 0x20,
{
    assert((p | mask) & 0x20 == 0x20) by (bit_vector)
        requires
            p & 0x20 == 0x20,
    ;
    assert((p & !mask) & 0x20 == 0x20) by (bit_vector)
        requires
            p & 0x20 == 0x20,
            mask == 1 || mask == 2 || mask == 4 || mask == 8 || mask == 16 || mask == 64 || mask
                == 128,
    ;
}

/// The processor status byte P.
#[derive(Debug, Clone, Copy, PartialEq, Eq, Structural)]
pub struct StatusRegister(pub u8);

impl StatusRegister {
    /// Bit 5 reads as one.
    pub open spec fn wf(&self) -> bool {
        self.0 & 0x20 == 0x20
    }

    /// The power-up state 0x24.
    pub fn new() -> (r: StatusRegister)
        ensures
            r.0 == 0x24,
            r.wf(),
    {
        assert(0x24u8 & 0x20 == 0x20) by (bit_vector);
        StatusRegister(0x24)
    }

    pub fn to_u8(&self) -> (r: u8)
        ensures
            r == self.0,
    {
        self.0
    }

    /// Replaces the byte; bit 5 is forced to one.
    pub fn set_u8(&mut self, value: u8)
        ensures
            final(self).0 == value | 0x20,
            final(self).wf(),
    {
        assert((value | 0x20) & 0x20 == 0x20) by (bit_vector);
        self.0 = value | 0x20;
    }

    fn get(&self, mask: u8) -> (r: bool)
        ensures
            r == has_flag(self.0, mask),
    {
        self.0 & mask != 0
    }

    fn set(&mut self, mask: u8, val: bool)
        requires
            is_flag_mask(mask),
        ensures
            final(self).0 == with_flag(old(self).0, mask, val),
            old(self).wf() ==> final(self).wf(),
    {
        proof {
            if old(self).wf() {
                lemma_with_flag_keeps_unused(old(self).0, mask, val);
            }
        }
        if val {
            self.0 = self.0 | mask;
        } else {
            self.0 = self.0 & !mask;
        }
    }

    pub fn carry_flag(&self) -> (r: bool)
        ensures
            r == has_flag(self.0, CARRY),
    {
        self.get(CARRY)
    }

    pub fn zero_flag(&self) -> (r: bool)
        ensures
            r == has_flag(self.0, ZERO),
    {
        self.get(ZERO)
    }

    pub fn interrupt_disable_flag(&self) -> (r: bool)
        ensures
            r == has_flag(self.0, INTERRUPT),
    {
        self.get(INTERRUPT)
    }

    pub fn decimal_mode(&self) -> (r: bool)
        ensures
            r == has_flag(self.0, DECIMAL),
    {
        self.get(DECIMAL)
    }

    pub fn break_command(&self) -> (r: bool)
        ensures
            r == has_flag(self.0, BREAK),
    {
        self.get(BREAK)
    }

    pub fn overflow_flag(&self) -> (r: bool)
        ensures
            r == has_flag(self.0, OVERFLOW),
    {
        self.get(OVERFLOW)
    }

    pub fn negative_flag(&self) -> (r: bool)
        ensures
            r == has_flag(self.0, NEGATIVE),
    {
        self.get(NEGATIVE)
    }

    pub fn set_carry_flag(&mut self, val: bool)
        ensures
            final(self).0 == with_flag(old(self).0, CARRY, val),
            old(self).wf() ==> final(self).wf(),
    {
        self.set(CARRY, val)
    }

    pub fn set_zero_flag(&mut self, val: bool)
        ensures
            final(self).0 == with_flag(old(self).0, ZERO, val),
            old(self).wf() ==> final(self).wf(),
    {
        self.set(ZERO, val)
    }

    pub fn set_interrupt_disable_flag(&mut self, val: bool)
        ensures
            final(self).0 == with_flag(old(self).0, INTERRUPT, val),
            old(self).wf() ==> final(self).wf(),
    {
        self.set(INTERRUPT, val)
    }

    pub fn set_decimal_mode(&mut self, val: bool)
        ensures
            final(self).0 == with_flag(old(self).0, DECIMAL, val),
            old(self).wf() ==> final(self).wf(),
    {
        self.set(DECIMAL, val)
    }

    pub fn set_break_command(&mut self, val: bool)
        ensures
            final(self).0 == with_flag(old(self).0, BREAK, val),
            old(self).wf() ==> final(self).wf(),
    {
        self.set(BREAK, val)
    }

    pub fn set_overflow_flag(&mut self, val: bool)
        ensures
            final(self).0 == with_flag(old(self).0, OVERFLOW, val),
            old(self).wf() ==> final(self).wf(),
    {
        self.set(OVERFLOW, val)
    }

    pub fn set_negative_flag(&mut self, val: bool)
        ensures
            final(self).0 == with_flag(old(self).0, NEGATIVE, val),
            old(self).wf() ==> final(self).wf(),
    {
        self.set(NEGATIVE, val)
    }
}

/// The register file.
#[allow(non_snake_case)]
#[derive(Debug, Clone, Copy, PartialEq, Eq, Structural)]
pub struct Register {
    /// accumulator
    pub A: u8,
    /// index register X
    pub X: u8,
    /// index register Y
    pub Y: u8,
    /// stack pointer; the stack lives at 0x0100 + S
    pub S: u8,
    /// status register
    pub P: StatusRegister,
    /// program counter
    pub PC: u16,
}

impl Register {
    /// A = X = Y = 0, S = 0xFD, P = 0x24, PC = 0xC000.
    pub fn new() -> (r: Register)
        ensures
            r.A == 0 && r.X == 0 && r.Y == 0,
            r.S == 0xfd,
            r.P.0 == 0x24,
            r.PC == 0xc000,
            r.P.wf(),
    {
        Register { A: 0, X: 0, Y: 0, S: 0xfd, P: StatusRegister::new(), PC: 0xc000 }
    }
}

impl Default for StatusRegister {
    /// The power-up state 0x24.
    fn default() -> (r: StatusRegister)
        ensures
            r.0 == 0x24,
    {
        StatusRegister::new()
    }
}

impl Default for Register {
    /// The power-up register file.
    fn default() -> (r: Register)
        ensures
            r.A == 0 && r.X == 0 && r.Y == 0,
            r.S == 0xfd && r.P.0 == 0x24 && r.PC == 0xc000,
    {
        Register::new()
    }
}

} // verus!
