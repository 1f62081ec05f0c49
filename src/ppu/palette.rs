use vstd::prelude::*;

verus! {

/// Bytes of palette RAM.
pub const PALETTE_LENGTH: usize = 0x20;

/// An RGB triple.
#[derive(Debug, Clone, Copy, PartialEq, Eq, Structural)]
pub struct Rgb {
    pub r: u8,
    pub g: u8,
    pub b: u8,
}

impl Rgb {
    pub fn new(r: u8, g: u8, b: u8) -> (c: Rgb)
        ensures
            c == rgb(r, g, b),
    {
        Rgb { r, g, b }
    }
}

pub open spec fn rgb(r: u8, g: u8, b: u8) -> Rgb {
    Rgb { r, g, b }
}

/// The 2C02 master palette, indexed by a 6-bit colour number.
pub open spec fn master_color(index: u8) -> Rgb {
    match index {
        0 => rgb(124, 124, 124),
        1 => rgb(0, 0, 252),
        2 => rgb(0, 0, 188),
        3 => rgb(68, 40, 188),
        4 => rgb(148, 0, 132),
        5 => rgb(168, 0, 32),
        6 => rgb(168, 16, 0),
        7 => rgb(136, 20, 0),
        8 => rgb(80, 48, 0),
        9 => rgb(0, 120, 0),
        10 => rgb(0, 104, 0),
        11 => rgb(0, 88, 0),
        12 => rgb(0, 64, 88),
        13 => rgb(0, 0, 0),
        14 => rgb(0, 0, 0),
        15 => rgb(0, 0, 0),
        16 => rgb(188, 188, 188),
        17 => rgb(0, 120, 248),
        18 => rgb(0, 88, 248),
        19 => rgb(104, 68, 252),
        20 => rgb(216, 0, 204),
        21 => rgb(228, 0, 88),
        22 => rgb(248, 56, 0),
        23 => rgb(228, 92, 16),
        24 => rgb(172, 124, 0),
        25 => rgb(0, 184, 0),
        26 => rgb(0, 168, 0),
        27 => rgb(0, 168, 68),
        28 => rgb(0, 136, 136),
        29 => rgb(0, 0, 0),
        30 => rgb(0, 0, 0),
        31 => rgb(0, 0, 0),
        32 => rgb(248, 248, 248),
        33 => rgb(60, 188, 252),
        34 => rgb(104, 136, 252),
        35 => rgb(152, 120, 248),
        36 => rgb(248, 120, 248),
        37 => rgb(248, 88, 152),
        38 => rgb(248, 120, 88),
        39 => rgb(252, 160, 68),
        40 => rgb(248, 184, 0),
        41 => rgb(184, 248, 24),
        42 => rgb(88, 216, 84),
        43 => rgb(88, 248, 152),
        44 => rgb(0, 232, 216),
        45 => rgb(120, 120, 120),
        46 => rgb(0, 0, 0),
        47 => rgb(0, 0, 0),
        48 => rgb(252, 252, 252),
        49 => rgb(164, 228, 252),
        50 => rgb(184, 184, 248),
        51 => rgb(216, 184, 248),
        52 => rgb(248, 184, 248),
        53 => rgb(248, 164, 192),
        54 => rgb(240, 208, 176),
        55 => rgb(252, 224, 168),
        56 => rgb(248, 216, 120),
        57 => rgb(216, 248, 120),
        58 => rgb(184, 248, 184),
        59 => rgb(184, 248, 216),
        60 => rgb(0, 252, 252),
        61 => rgb(248, 216, 248),
        62 => rgb(0, 0, 0),
        _ => rgb(0, 0, 0),
    }
}

/// The master palette entry of a palette RAM byte; bits 6 and 7 are ignored.
pub fn color_of(value: u8) -> (c: Rgb)
    ensures
        c == master_color(value & 0x3f),
{
    match value & 0x3f {
        0 => Rgb::new(124, 124, 124),
        1 => Rgb::new(0, 0, 252),
        2 => Rgb::new(0, 0, 188),
        3 => Rgb::new(68, 40, 188),
        4 => Rgb::new(148, 0, 132),
        5 => Rgb::new(168, 0, 32),
        6 => Rgb::new(168, 16, 0),
        7 => Rgb::new(136, 20, 0),
        8 => Rgb::new(80, 48, 0),
        9 => Rgb::new(0, 120, 0),
        10 => Rgb::new(0, 104, 0),
        11 => Rgb::new(0, 88, 0),
        12 => Rgb::new(0, 64, 88),
        13 => Rgb::new(0, 0, 0),
        14 => Rgb::new(0, 0, 0),
        15 => Rgb::new(0, 0, 0),
        16 => Rgb::new(188, 188, 188),
        17 => Rgb::new(0, 120, 248),
        18 => Rgb::new(0, 88, 248),
        19 => Rgb::new(104, 68, 252),
        20 => Rgb::new(216, 0, 204),
        21 => Rgb::new(228, 0, 88),
        22 => Rgb::new(248, 56, 0),
        23 => Rgb::new(228, 92, 16),
        24 => Rgb::new(172, 124, 0),
        25 => Rgb::new(0, 184, 0),
        26 => Rgb::new(0, 168, 0),
        27 => Rgb::new(0, 168, 68),
        28 => Rgb::new(0, 136, 136),
        29 => Rgb::new(0, 0, 0),
        30 => Rgb::new(0, 0, 0),
        31 => Rgb::new(0, 0, 0),
        32 => Rgb::new(248, 248, 248),
        33 => Rgb::new(60, 188, 252),
        34 => Rgb::new(104, 136, 252),
        35 => Rgb::new(152, 120, 248),
        36 => Rgb::new(248, 120, 248),
        37 => Rgb::new(248, 88, 152),
        38 => Rgb::new(248, 120, 88),
        39 => Rgb::new(252, 160, 68),
        40 => Rgb::new(248, 184, 0),
        41 => Rgb::new(184, 248, 24),
        42 => Rgb::new(88, 216, 84),
        43 => Rgb::new(88, 248, 152),
        44 => Rgb::new(0, 232, 216),
        45 => Rgb::new(120, 120, 120),
        46 => Rgb::new(0, 0, 0),
        47 => Rgb::new(0, 0, 0),
        48 => Rgb::new(252, 252, 252),
        49 => Rgb::new(164, 228, 252),
        50 => Rgb::new(184, 184, 248),
        51 => Rgb::new(216, 184, 248),
        52 => Rgb::new(248, 184, 248),
        53 => Rgb::new(248, 164, 192),
        54 => Rgb::new(240, 208, 176),
        55 => Rgb::new(252, 224, 168),
        56 => Rgb::new(248, 216, 120),
        57 => Rgb::new(216, 248, 120),
        58 => Rgb::new(184, 248, 184),
        59 => Rgb::new(184, 248, 216),
        60 => Rgb::new(0, 252, 252),
        61 => Rgb::new(248, 216, 248),
        62 => Rgb::new(0, 0, 0),
        _ => Rgb::new(0, 0, 0),
    }
}

/// The palette index that an address below 0x20 also writes: 0x10, 0x14, 0x18
/// and 0x1C alias 0x00, 0x04, 0x08 and 0x0C, and the other way round.
pub open spec fn palette_alias(addr: u16) -> u16 {
    if addr >= 0x10 {
        (addr - 0x10) as u16
    } else {
        (addr + 0x10) as u16
    }
}

/// Palette RAM after a write of `value` at `addr`.
pub open spec fn palette_after_store(m: Seq<u8>, addr: u16, value: u8) -> Seq<u8> {
    if addr % 4 == 0 {
        m.update(addr as int, value).update(palette_alias(addr) as int, value)
    } else {
        m.update(addr as int, value)
    }
}

/// The 32 bytes of palette RAM.
pub struct Palettes {
    pub memory: Vec<u8>,
}

impl Palettes {
    pub open spec fn wf(&self) -> bool {
        self.memory@.len() == PALETTE_LENGTH
    }

    /// The colour of the universal background, entry 0.
    pub open spec fn universal_spec(&self) -> Rgb {
        master_color(self.memory@[0] & 0x3f)
    }

    /// The colour of entry `base + palette_index * 4 + color_index`, or the universal
    /// background for colour index 0.
    pub open spec fn color_spec(&self, base: int, palette_index: u8, color_index: u8) -> Rgb {
        if color_index == 0 {
            self.universal_spec()
        } else {
            master_color(self.memory@[base + palette_index * 4 + color_index] & 0x3f)
        }
    }

    pub fn new() -> (r: Palettes)
        ensures
            r.wf(),
            forall|i: int| 0 <= i < PALETTE_LENGTH ==> r.memory@[i] == 0,
    {
        Palettes { memory: vec![0u8; PALETTE_LENGTH] }
    }

    pub fn load(&self, addr: u16) -> (r: u8)
        requires
            self.wf(),
            addr < PALETTE_LENGTH,
        ensures
            r == self.memory@[addr as int],
    {
        self.memory[addr as usize]
    }

    /// Writes `value` at `addr` and at its alias when `addr` is a multiple of 4.
    pub fn store(&mut self, addr: u16, value: u8)
        requires
            old(self).wf(),
            addr < PALETTE_LENGTH,
        ensures
            final(self).wf(),
            final(self).memory@ == palette_after_store(old(self).memory@, addr, value),
    {
        self.memory.set(addr as usize, value);
        if addr % 4 == 0 {
            let alias = if addr >= 0x10 {
                addr - 0x10
            } else {
                addr + 0x10
            };
            self.memory.set(alias as usize, value);
        }
    }

    pub fn get_universal_background_color(&self) -> (r: Rgb)
        requires
            self.wf(),
        ensures
            r == self.universal_spec(),
    {
        color_of(self.memory[0])
    }

    /// Background colour `color_index` of palette `palette_index`.
    pub fn get_background_color(&self, palette_index: u8, color_index: u8) -> (r: Rgb)
        requires
            self.wf(),
            palette_index < 4,
            color_index < 4,
        ensures
            r == self.color_spec(0, palette_index, color_index),
    {
        if color_index == 0 {
            return self.get_universal_background_color();
        }
        let addr = palette_index * 4 + color_index;
        color_of(self.memory[addr as usize])
    }

    /// Sprite colour `color_index` of sprite palette `palette_index`.
    pub fn get_sprite_color(&self, palette_index: u8, color_index: u8) -> (r: Rgb)
        requires
            self.wf(),
            palette_index < 4,
            color_index < 4,
        ensures
            r == self.color_spec(0x10, palette_index, color_index),
    {
        if color_index == 0 {
            return self.get_universal_background_color();
        }
        let addr = 0x10 + palette_index * 4 + color_index;
        color_of(self.memory[addr as usize])
    }
}

} // verus!

