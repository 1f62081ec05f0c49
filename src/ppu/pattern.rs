use vstd::prelude::*;

verus! {

/// Bytes in one pattern table.
pub const PATTERN_TABLE_LENGTH: usize = 0x1000;

/// Which of the two pattern tables.
#[derive(Debug, Clone, Copy, PartialEq, Eq, Structural)]
pub enum PatternTableSide {
    Left,
    Right,
}

/// One 4 KiB pattern table: 256 tiles of 16 bytes.
pub struct PatternTable {
    pub memory: Vec<u8>,
}

/// The two pattern tables, backed by CHR-ROM.
pub struct PatternTables {
    pub left: PatternTable,
    pub right: PatternTable,
}

/// Byte `i` of `d`, or zero past its end.
pub open spec fn byte_or_zero(d: Seq<u8>, i: int) -> u8 {
    if 0 <= i < d.len() {
        d[i]
    } else {
        0
    }
}

/// The 2-bit colour index of pixel (x, y) of tile `index`: bit 7 - x of the low
/// plane row and, as the high bit, of the high plane row.
pub open spec fn tile_pixel(memory: Seq<u8>, index: u8, x: u8, y: u8) -> u8 {
    let lo = memory[index * 16 + y];
    let hi = memory[index * 16 + y + 8];
    (((hi >> ((7 - x) as u8)) & 1) << 1) | ((lo >> ((7 - x) as u8)) & 1)
}

impl PatternTable {
    pub open spec fn wf(&self) -> bool {
        self.memory@.len() == PATTERN_TABLE_LENGTH
    }

    /// The table from the first 0x1000 bytes of `d`, zero past its end.
    pub fn new(d: &[u8]) -> (r: PatternTable)
        ensures
            r.wf(),
            forall|i: int| 0 <= i < PATTERN_TABLE_LENGTH ==> r.memory@[i] == byte_or_zero(d@, i),
    {
        PatternTable::from_range(d, 0)
    }

    /// The table from bytes `start .. start + 0x1000` of `d`, zero past its end.
    fn from_range(d: &[u8], start: usize) -> (r: PatternTable)
        requires
            start <= 0x1000,
        ensures
            r.wf(),
            forall|i: int|
                0 <= i < PATTERN_TABLE_LENGTH ==> r.memory@[i] == byte_or_zero(d@, start + i),
    {
        let mut memory: Vec<u8> = Vec::new();
        let mut i: usize = 0;
        while i < PATTERN_TABLE_LENGTH
            invariant
                i <= PATTERN_TABLE_LENGTH,
                start <= 0x1000,
                memory@.len() == i,
                forall|j: int| 0 <= j < i ==> memory@[j] == byte_or_zero(d@, start + j),
            decreases PATTERN_TABLE_LENGTH - i,
        {
            let b = if start + i < d.len() {
                d[start + i]
            } else {
                0
            };
            memory.push(b);
            i = i + 1;
        }
        PatternTable { memory }
    }

    pub fn load(&self, addr: u16) -> (r: u8)
        requires
            self.wf(),
            addr < PATTERN_TABLE_LENGTH,
        ensures
            r == self.memory@[addr as int],
    {
        self.memory[addr as usize]
    }

    /// Colour index 0..3 of pixel (x, y) of tile `index`.
    pub fn get_value(&self, index: u8, x: u8, y: u8) -> (r: u8)
        requires
            self.wf(),
            x < 8,
            y < 8,
        ensures
            r == tile_pixel(self.memory@, index, x, y),
            r < 4,
    {
        let base = index as usize * 16;
        let lo = self.memory[base + y as usize];
        let hi = self.memory[base + y as usize + 8];
        let s: u8 = 7 - x;
        let r = (((hi >> s) & 1) << 1) | ((lo >> s) & 1);
        assert((((hi >> s) & 1) << 1) | ((lo >> s) & 1) < 4) by (bit_vector);
        r
    }
}

/// The byte at pattern address `addr` (below 0x2000).
pub open spec fn pattern_byte(t: PatternTables, addr: u16) -> u8 {
    if addr < 0x1000 {
        t.left.memory@[addr as int]
    } else {
        t.right.memory@[addr - 0x1000]
    }
}

impl PatternTables {
    pub open spec fn wf(&self) -> bool {
        self.left.wf() && self.right.wf()
    }

    /// Both tables from CHR-ROM; bytes past its end read as zero.
    pub fn new(chr_rom: &[u8]) -> (r: PatternTables)
        ensures
            r.wf(),
            forall|i: int| 0 <= i < 0x2000 ==> pattern_byte(r, i as u16) == byte_or_zero(chr_rom@, i),
    {
        let left = PatternTable::from_range(chr_rom, 0);
        let right = PatternTable::from_range(chr_rom, 0x1000);
        PatternTables { left, right }
    }

    pub fn load(&self, addr: u16) -> (r: u8)
        requires
            self.wf(),
            addr < 0x2000,
        ensures
            r == pattern_byte(*self, addr),
    {
        if addr < 0x1000 {
            self.left.load(addr)
        } else {
            self.right.load(addr - 0x1000)
        }
    }

    pub fn get_table(&self, side: PatternTableSide) -> (r: &PatternTable)
        ensures
            r == (match side {
                PatternTableSide::Left => &self.left,
                PatternTableSide::Right => &self.right,
            }),
    {
        match side {
            PatternTableSide::Left => &self.left,
            PatternTableSide::Right => &self.right,
        }
    }
}

} // verus!
