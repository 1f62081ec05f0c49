use vstd::prelude::*;

use crate::ppu::pattern::PatternTableSide;

verus! {

/// PPUCTRL (0x2000).
#[derive(Debug, Clone, Copy, PartialEq, Eq, Structural)]
pub struct PPUCtrl {
    pub value: u8,
}

/// PPUMASK (0x2001).
#[derive(Debug, Clone, Copy, PartialEq, Eq, Structural)]
pub struct PPUMask {
    pub value: u8,
}

/// PPUSTATUS (0x2002).
#[derive(Debug, Clone, Copy, PartialEq, Eq, Structural)]
pub struct PPUStatus {
    pub value: u8,
}

/// The VRAM address stride selected by bit 2 of PPUCTRL.
pub open spec fn addr_incr_spec(ctrl: u8) -> u8 {
    if ctrl & 0x04 == 0 {
        1
    } else {
        32
    }
}

/// The pattern table that bit `mask` of PPUCTRL selects.
pub open spec fn table_side(ctrl: u8, mask: u8) -> PatternTableSide {
    if ctrl & mask != 0 {
        PatternTableSide::Right
    } else {
        PatternTableSide::Left
    }
}

impl PPUCtrl {
    pub fn new() -> (r: PPUCtrl)
        ensures
            r.value == 0,
    {
        PPUCtrl { value: 0 }
    }

    /// 1 or 32, by bit 2.
    pub fn addr_incr(&self) -> (r: u8)
        ensures
            r == addr_incr_spec(self.value),
    {
        if (self.value & 0x4) == 0 {
            1
        } else {
            32
        }
    }

    /// Whether vblank raises an NMI (bit 7).
    pub fn vblank_nmi(&self) -> (r: bool)
        ensures
            r == (self.value & 0x80 != 0),
    {
        (self.value & 0x80) != 0
    }

    /// Bit 8 of the horizontal scroll (bit 0).
    pub fn scroll_x_bit8(&self) -> (r: u8)
        ensures
            r == self.value & 0x01,
            r <= 1,
    {
        let v = self.value;
        let r = v & 0x01;
        assert(v & 0x01 <= 1) by (bit_vector);
        r
    }

    /// Bit 8 of the vertical scroll (bit 1).
    pub fn scroll_y_bit8(&self) -> (r: u8)
        ensures
            r == (self.value >> 1) & 0x01,
            r <= 1,
    {
        let v = self.value;
        let r = (v >> 1) & 0x01;
        assert((v >> 1) & 0x01 <= 1) by (bit_vector);
        r
    }

    /// Pattern table of the background (bit 4).
    pub fn background_table(&self) -> (r: PatternTableSide)
        ensures
            r == table_side(self.value, 0x10),
    {
        if (self.value & 0x10) != 0 {
            PatternTableSide::Right
        } else {
            PatternTableSide::Left
        }
    }

    /// Pattern table of the sprites (bit 3).
    pub fn sprite_table(&self) -> (r: PatternTableSide)
        ensures
            r == table_side(self.value, 0x08),
    {
        if (self.value & 0x08) != 0 {
            PatternTableSide::Right
        } else {
            PatternTableSide::Left
        }
    }

    pub fn set_u8(&mut self, value: u8)
        ensures
            final(self).value == value,
    {
        self.value = value;
    }
}

impl PPUMask {
    pub fn new() -> (r: PPUMask)
        ensures
            r.value == 0,
    {
        PPUMask { value: 0 }
    }

    pub fn gray_scale(&self) -> (r: bool)
        ensures
            r == (self.value & 0x01 != 0),
    {
        (self.value & 0x1) != 0
    }

    pub fn show_background(&self) -> (r: bool)
        ensures
            r == (self.value & 0x08 != 0),
    {
        (self.value & 0x8) != 0
    }

    pub fn show_sprite(&self) -> (r: bool)
        ensures
            r == (self.value & 0x10 != 0),
    {
        (self.value & 0x10) != 0
    }

    pub fn set_u8(&mut self, value: u8)
        ensures
            final(self).value == value,
    {
        self.value = value;
    }
}

/// `v` with the bits of `mask` set or cleared.
pub open spec fn with_bits(v: u8, mask: u8, on: bool) -> u8 {
    if on {
        v | mask
    } else {
        v & !mask
    }
}

impl PPUStatus {
    pub fn new() -> (r: PPUStatus)
        ensures
            r.value == 0,
    {
        PPUStatus { value: 0 }
    }

    /// Sets or clears bit 6.
    pub fn set_sprite_0_hit(&mut self, value: bool)
        ensures
            final(self).value == with_bits(old(self).value, 0x40, value),
    {
        if value {
            self.value = self.value | 0x40;
        } else {
            self.value = self.value & !0x40u8;
        }
    }

    /// Sets or clears bit 7.
    pub fn set_vblank(&mut self, value: bool)
        ensures
            final(self).value == with_bits(old(self).value, 0x80, value),
    {
        if value {
            self.value = self.value | 0x80;
        } else {
            self.value = self.value & !0x80u8;
        }
    }

    pub fn to_u8(&self) -> (r: u8)
        ensures
            r == self.value,
    {
        self.value
    }
}

} // verus!
