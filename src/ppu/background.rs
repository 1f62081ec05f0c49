use vstd::prelude::*;

verus! {

/// Bytes in one nametable, attribute table included.
pub const TABLE_SIZE: usize = 0x400;
/// Offset of the attribute table inside a nametable.
pub const NAME_TABLE_SIZE: u16 = 0x3c0;
/// Width of one screen in pixels.
pub const TABLE_WIDTH: u16 = 256;
/// Height of one screen in pixels.
pub const TABLE_HEIGHT: u16 = 240;

/// How the four logical screens map onto the two physical nametables.
#[derive(Debug, Clone, Copy, PartialEq, Eq, Structural)]
pub enum MirroringMode {
    Vertical,
    Horizontal,
}

/// One of the four logical screens.
#[derive(Debug, Clone, Copy, PartialEq, Eq, Structural)]
pub enum Screen {
    TopLeft,
    TopRight,
    BottomLeft,
    BottomRight,
}

/// The screen that a nametable address (below 0x1000) falls in.
pub open spec fn screen_of_addr(addr: u16) -> Screen {
    let id = (addr % 0x1000) / 0x400;
    if id == 0 {
        Screen::TopLeft
    } else if id == 1 {
        Screen::TopRight
    } else if id == 2 {
        Screen::BottomLeft
    } else {
        Screen::BottomRight
    }
}

/// The screen that a scrolled pixel coordinate falls in.
pub open spec fn screen_of_coord(x: u16, y: u16) -> Screen {
    if x < TABLE_WIDTH && y < TABLE_HEIGHT {
        Screen::TopLeft
    } else if y < TABLE_HEIGHT {
        Screen::TopRight
    } else if x < TABLE_WIDTH {
        Screen::BottomLeft
    } else {
        Screen::BottomRight
    }
}

/// The physical table (0 or 1) behind a screen: vertical mirroring pairs the
/// left and right columns, horizontal mirroring the top and bottom rows.
pub open spec fn physical_table(mode: MirroringMode, screen: Screen) -> u8 {
    match mode {
        MirroringMode::Vertical => match screen {
            Screen::TopLeft | Screen::BottomLeft => 0,
            _ => 1,
        },
        MirroringMode::Horizontal => match screen {
            Screen::TopLeft | Screen::TopRight => 0,
            _ => 1,
        },
    }
}

impl Screen {
    fn from_addr(addr: u16) -> (r: Screen)
        ensures
            r == screen_of_addr(addr),
    {
        let id = (addr % 0x1000) / 0x400;
        if id == 0 {
            Screen::TopLeft
        } else if id == 1 {
            Screen::TopRight
        } else if id == 2 {
            Screen::BottomLeft
        } else {
            Screen::BottomRight
        }
    }

    fn from_coord(x: u16, y: u16) -> (r: Screen)
        ensures
            r == screen_of_coord(x, y),
    {
        if x < TABLE_WIDTH && y < TABLE_HEIGHT {
            Screen::TopLeft
        } else if y < TABLE_HEIGHT {
            Screen::TopRight
        } else if x < TABLE_WIDTH {
            Screen::BottomLeft
        } else {
            Screen::BottomRight
        }
    }
}

fn physical(mode: MirroringMode, screen: Screen) -> (r: u8)
    ensures
        r == physical_table(mode, screen),
{
    match mode {
        MirroringMode::Vertical => match screen {
            Screen::TopLeft | Screen::BottomLeft => 0,
            _ => 1,
        },
        MirroringMode::Horizontal => match screen {
            Screen::TopLeft | Screen::TopRight => 0,
            _ => 1,
        },
    }
}

/// The tile index at pixel (x, y) of one nametable.
pub open spec fn tile_at(m: Seq<u8>, x: u16, y: u16) -> u8 {
    m[x / 8 + (y / 8) * 32]
}

/// The 2-bit palette index at pixel (x, y) of one nametable: the quadrant of
/// the 32x32 block picks two bits of its attribute byte.
pub open spec fn palette_at(m: Seq<u8>, x: u16, y: u16) -> u8 {
    let attr = m[NAME_TABLE_SIZE + x / 32 + (y / 32) * 8];
    let shift: u8 = if x % 32 < 16 && y % 32 < 16 {
        0
    } else if y % 32 < 16 {
        2
    } else if x % 32 < 16 {
        4
    } else {
        6
    };
    (attr >> shift) % 4
}

/// One physical 1 KiB nametable.
pub struct NameTable {
    pub memory: Vec<u8>,
}

impl NameTable {
    pub open spec fn wf(&self) -> bool {
        self.memory@.len() == TABLE_SIZE
    }

    fn new() -> (r: NameTable)
        ensures
            r.wf(),
            forall|i: int| 0 <= i < TABLE_SIZE ==> r.memory@[i] == 0,
    {
        NameTable { memory: vec![0u8; TABLE_SIZE] }
    }

    fn get_pattern_index(&self, x: u16, y: u16) -> (r: u8)
        requires
            self.wf(),
            x < TABLE_WIDTH,
            y < TABLE_HEIGHT,
        ensures
            r == tile_at(self.memory@, x, y),
    {
        let addr = x / 8 + (y / 8) * 32;
        self.memory[addr as usize]
    }

    fn get_palette_index(&self, x: u16, y: u16) -> (r: u8)
        requires
            self.wf(),
            x < TABLE_WIDTH,
            y < TABLE_HEIGHT,
        ensures
            r == palette_at(self.memory@, x, y),
            r < 4,
    {
        let addr = NAME_TABLE_SIZE + x / 32 + (y / 32) * 8;
        let shift: u8 = if x % 32 < 16 && y % 32 < 16 {
            0
        } else if y % 32 < 16 {
            2
        } else if x % 32 < 16 {
            4
        } else {
            6
        };
        (self.memory[addr as usize] >> shift) % 4
    }
}

/// The two physical nametables and the mirroring that maps screens onto them.
pub struct NameTables {
    pub table1: NameTable,
    pub table2: NameTable,
    pub mirroring: MirroringMode,
}

impl NameTables {
    pub open spec fn wf(&self) -> bool {
        self.table1.wf() && self.table2.wf()
    }

    /// The bytes of physical table `t`.
    pub open spec fn table(&self, t: u8) -> Seq<u8> {
        if t == 0 {
            self.table1.memory@
        } else {
            self.table2.memory@
        }
    }

    /// The byte at nametable address `addr` (below 0x1000).
    pub open spec fn byte_at(&self, addr: u16) -> u8 {
        self.table(physical_table(self.mirroring, screen_of_addr(addr)))[(addr % 0x400) as int]
    }

    /// The tile index at scrolled pixel (x, y).
    pub open spec fn pattern_index_spec(&self, x: u16, y: u16) -> u8 {
        tile_at(
            self.table(physical_table(self.mirroring, screen_of_coord(x, y))),
            x % TABLE_WIDTH,
            y % TABLE_HEIGHT,
        )
    }

    /// The palette index at scrolled pixel (x, y).
    pub open spec fn palette_index_spec(&self, x: u16, y: u16) -> u8 {
        palette_at(
            self.table(physical_table(self.mirroring, screen_of_coord(x, y))),
            x % TABLE_WIDTH,
            y % TABLE_HEIGHT,
        )
    }

    /// Both tables zeroed, vertical mirroring.
    pub fn new() -> (r: NameTables)
        ensures
            r.wf(),
            r.mirroring == MirroringMode::Vertical,
            forall|i: int| 0 <= i < TABLE_SIZE ==> r.table1.memory@[i] == 0 && r.table2.memory@[i] == 0,
    {
        NameTables { table1: NameTable::new(), table2: NameTable::new(), mirroring: MirroringMode::Vertical }
    }

    pub fn get_pattern_index(&self, x: u16, y: u16) -> (r: u8)
        requires
            self.wf(),
        ensures
            r == self.pattern_index_spec(x, y),
    {
        if physical(self.mirroring, Screen::from_coord(x, y)) == 0 {
            self.table1.get_pattern_index(x % TABLE_WIDTH, y % TABLE_HEIGHT)
        } else {
            self.table2.get_pattern_index(x % TABLE_WIDTH, y % TABLE_HEIGHT)
        }
    }

    pub fn get_palette_index(&self, x: u16, y: u16) -> (r: u8)
        requires
            self.wf(),
        ensures
            r == self.palette_index_spec(x, y),
            r < 4,
    {
        if physical(self.mirroring, Screen::from_coord(x, y)) == 0 {
            self.table1.get_palette_index(x % TABLE_WIDTH, y % TABLE_HEIGHT)
        } else {
            self.table2.get_palette_index(x % TABLE_WIDTH, y % TABLE_HEIGHT)
        }
    }

    pub fn set_varical_mirroring(&mut self)
        ensures
            final(self).mirroring == MirroringMode::Vertical,
            final(self).table1 == old(self).table1,
            final(self).table2 == old(self).table2,
    {
        self.mirroring = MirroringMode::Vertical;
    }

    pub fn set_horizontal_mirroring(&mut self)
        ensures
            final(self).mirroring == MirroringMode::Horizontal,
            final(self).table1 == old(self).table1,
            final(self).table2 == old(self).table2,
    {
        self.mirroring = MirroringMode::Horizontal;
    }

    /// Reads nametable address `addr` through the mirroring.
    pub fn load(&self, addr: u16) -> (r: u8)
        requires
            self.wf(),
            addr < 0x1000,
        ensures
            r == self.byte_at(addr),
    {
        let offset = addr % 0x400;
        if physical(self.mirroring, Screen::from_addr(addr)) == 0 {
            self.table1.memory[offset as usize]
        } else {
            self.table2.memory[offset as usize]
        }
    }

    /// `post` is these tables after a write of `value` at `addr`.
    pub open spec fn store_post(&self, post: NameTables, addr: u16, value: u8) -> bool {
        let t = physical_table(self.mirroring, screen_of_addr(addr));
        &&& post.wf()
        &&& post.mirroring == self.mirroring
        &&& post.table(t) == self.table(t).update((addr % 0x400) as int, value)
        &&& post.table((1 - t) as u8) == self.table((1 - t) as u8)
    }

    /// Writes nametable address `addr` through the mirroring.
    pub fn store(&mut self, addr: u16, value: u8)
        requires
            old(self).wf(),
            addr < 0x1000,
        ensures
            old(self).store_post(*final(self), addr, value),
    {
        let offset = addr % 0x400;
        if physical(self.mirroring, Screen::from_addr(addr)) == 0 {
            self.table1.memory.set(offset as usize, value);
        } else {
            self.table2.memory.set(offset as usize, value);
        }
    }
}

} // verus!
