use vstd::prelude::*;

pub mod background;
pub mod palette;
pub mod pattern;
pub mod register;
pub mod sprite;

use crate::cartridge::Cartridge;
use crate::ppu::background::NameTables;
use crate::ppu::palette::{Palettes, Rgb, palette_after_store};
use crate::ppu::pattern::{PatternTables, pattern_byte, tile_pixel};
use crate::ppu::register::{PPUCtrl, PPUMask, PPUStatus, addr_incr_spec, table_side, with_bits};
use crate::ppu::sprite::{Sprite, SpriteAttribute};

verus! {

/// Scanlines per frame.
pub const TOTAL_SCANLINE: u16 = 262;
/// Dots per scanline.
pub const TOTAL_CYCLES_IN_LINE: u16 = 341;
/// Visible lines.
pub const WINDOW_HEIGHT: usize = 240;
/// Visible pixels per line.
pub const WINDOW_WIDTH: usize = 256;
/// Bytes of the RGB frame buffer.
pub const BUFFER_LENGTH: usize = 184320;

/// What one dot of the PPU signals.
#[derive(Debug, Clone, Copy, PartialEq, Eq, Structural)]
pub struct ExecResult {
    /// true if an NMI should be delivered
    pub vblank_nmi: bool,
    /// true if a new frame starts
    pub new_frame: bool,
}

impl ExecResult {
    fn new() -> (r: ExecResult)
        ensures
            r == (ExecResult { vblank_nmi: false, new_frame: false }),
    {
        ExecResult { vblank_nmi: false, new_frame: false }
    }
}

/// The three bytes of pixel (x, y) in a frame buffer.
pub open spec fn pixel_at(buf: Seq<u8>, x: u8, y: u8) -> Rgb {
    let i = 768 * y + 3 * x;
    Rgb { r: buf[i], g: buf[i + 1], b: buf[i + 2] }
}

/// Sprite `i` of the OAM bytes `oam`.
pub open spec fn oam_sprite_at(oam: Seq<u8>, i: int) -> Sprite {
    Sprite {
        base_y: (oam[4 * i] + 1) as u16,
        tile_index: oam[4 * i + 1],
        attribute: SpriteAttribute(oam[4 * i + 2]),
        base_x: oam[4 * i + 3],
    }
}

/// The colour of the first sprite from `i` on that is opaque at (x, y).
pub open spec fn first_sprite_color(
    oam: Seq<u8>,
    pattern: Seq<u8>,
    palette: Palettes,
    i: int,
    x: u8,
    y: u8,
) -> Option<Rgb>
    decreases 64 - i,
{
    if i >= 64 || i < 0 {
        None
    } else {
        match oam_sprite_at(oam, i).color_spec(x, y, pattern, palette) {
            Some(c) => Some(c),
            None => first_sprite_color(oam, pattern, palette, i + 1, x, y),
        }
    }
}

/// Picture processing unit.
pub struct Ppu {
    pub reg_ctrl: PPUCtrl,
    pub reg_mask: PPUMask,
    pub reg_status: PPUStatus,
    pub pattern_tables: PatternTables,
    pub name_table: NameTables,
    pub palette_table: Palettes,
    /// current VRAM address; accesses use its low 14 bits
    pub vram_addr: u16,
    pub oam_data: Vec<u8>,
    pub oam_addr: u8,
    /// (x, y) scroll
    pub scroll: (u8, u8),
    /// the write toggle shared by PPUSCROLL and PPUADDR: the first byte of a
    /// two-byte write, while the second is awaited
    pub write_latch: Option<u8>,
    pub scanline: u16,
    pub cycles_in_line: u16,
    pub ppudata_buffer: u8,
    pub render_buffer: Vec<u8>,
}

impl Ppu {
    pub open spec fn wf(&self) -> bool {
        &&& self.pattern_tables.wf()
        &&& self.name_table.wf()
        &&& self.palette_table.wf()
        &&& self.oam_data@.len() == 256
        &&& self.render_buffer@.len() == BUFFER_LENGTH
        &&& self.scanline < TOTAL_SCANLINE
        &&& self.cycles_in_line < TOTAL_CYCLES_IN_LINE
    }

    /// Dots since the start of the frame.
    pub open spec fn position(&self) -> int {
        self.scanline * 341 + self.cycles_in_line
    }

    /// The byte at 14-bit VRAM address `a`.
    pub open spec fn vram_byte(&self, a: u16) -> u8 {
        if a < 0x2000 {
            pattern_byte(self.pattern_tables, a)
        } else if a < 0x3f00 {
            self.name_table.byte_at(((a - 0x2000) % 0x1000) as u16)
        } else {
            self.palette_table.memory@[(a - 0x3f00) % 0x20]
        }
    }

    /// The VRAM address that PPUDATA reaches.
    pub open spec fn data_addr(&self) -> u16 {
        (self.vram_addr % 0x4000) as u16
    }

    /// The VRAM address after one PPUDATA access.
    pub open spec fn next_vram_addr(&self) -> u16 {
        ((self.vram_addr + addr_incr_spec(self.reg_ctrl.value)) % 0x10000) as u16
    }

    /// What a CPU read of register `reg` returns.
    pub open spec fn load_value(&self, reg: u16) -> u8 {
        if reg == 2 {
            self.reg_status.value
        } else if reg == 4 {
            self.oam_data@[self.oam_addr as int]
        } else if reg == 7 {
            if self.data_addr() >= 0x3f00 {
                self.vram_byte(self.data_addr())
            } else {
                self.ppudata_buffer
            }
        } else {
            0
        }
    }

    /// The PPU after a CPU read of register `reg`.
    pub open spec fn after_load(self, reg: u16) -> Ppu {
        if reg == 2 {
            Ppu {
                reg_status: PPUStatus { value: with_bits(self.reg_status.value, 0x80, false) },
                write_latch: None,
                ..self
            }
        } else if reg == 7 {
            Ppu {
                vram_addr: self.next_vram_addr(),
                ppudata_buffer: self.vram_byte(self.data_addr()),
                ..self
            }
        } else {
            self
        }
    }

    /// `post` is this PPU after a write of `val` at 14-bit VRAM address `a`.
    pub open spec fn vram_store_post(&self, post: Ppu, a: u16, val: u8) -> bool {
        if a < 0x2000 {
            post == *self
        } else if a < 0x3f00 {
            &&& self.name_table.store_post(post.name_table, ((a - 0x2000) % 0x1000) as u16, val)
            &&& post == Ppu { name_table: post.name_table, ..*self }
        } else {
            &&& post.palette_table.wf()
            &&& post.palette_table.memory@ == palette_after_store(
                self.palette_table.memory@,
                ((a - 0x3f00) % 0x20) as u16,
                val,
            )
            &&& post == Ppu { palette_table: post.palette_table, ..*self }
        }
    }

    /// A first write to PPUSCROLL or PPUADDR waits for its second.
    pub open spec fn pending(&self) -> bool {
        self.write_latch is Some
    }

    /// The byte of the pending first write.
    pub open spec fn pending_value(&self) -> u8 {
        match self.write_latch {
            Some(v) => v,
            None => 0,
        }
    }

    /// `post` is this PPU after a CPU write of `val` to register `reg`.
    pub open spec fn store_post(&self, post: Ppu, reg: u16, val: u8) -> bool {
        if reg == 0 {
            post == Ppu { reg_ctrl: PPUCtrl { value: val }, ..*self }
        } else if reg == 1 {
            post == Ppu { reg_mask: PPUMask { value: val }, ..*self }
        } else if reg == 3 {
            post == Ppu { oam_addr: val, ..*self }
        } else if reg == 4 {
            &&& post.oam_data@ == self.oam_data@.update(self.oam_addr as int, val)
            &&& post == Ppu {
                oam_data: post.oam_data,
                oam_addr: ((self.oam_addr + 1) % 256) as u8,
                ..*self
            }
        } else if reg == 5 {
            if self.pending() {
                post == Ppu { scroll: (self.pending_value(), val), write_latch: None, ..*self }
            } else {
                post == Ppu { write_latch: Some(val), ..*self }
            }
        } else if reg == 6 {
            if self.pending() {
                post == Ppu {
                    vram_addr: (self.pending_value() * 256 + val) as u16,
                    write_latch: None,
                    ..*self
                }
            } else {
                post == Ppu { write_latch: Some(val), ..*self }
            }
        } else if reg == 7 {
            Ppu { vram_addr: self.next_vram_addr(), ..*self }.vram_store_post(
                post,
                self.data_addr(),
                val,
            )
        } else {
            post == *self
        }
    }

    /// The full horizontal scroll, bit 8 from PPUCTRL.
    pub open spec fn scroll_x(&self) -> u16 {
        ((self.reg_ctrl.value & 0x01) * 256 + self.scroll.0) as u16
    }

    /// The full vertical scroll, bit 8 from PPUCTRL.
    pub open spec fn scroll_y(&self) -> u16 {
        (((self.reg_ctrl.value >> 1) & 0x01) * 256 + self.scroll.1) as u16
    }

    /// The background colour of screen pixel (x, y); `None` where rendering is
    /// off or the pixel is transparent.
    pub open spec fn bg_pixel(&self, x: u8, y: u8) -> Option<Rgb> {
        if self.reg_mask.value & 0x08 == 0 {
            None
        } else {
            let sx = (self.scroll_x() + x) as u16;
            let sy = (self.scroll_y() + y) as u16;
            let tile = self.name_table.pattern_index_spec(sx, sy);
            let pal = self.name_table.palette_index_spec(sx, sy);
            let table = if table_side(self.reg_ctrl.value, 0x10) == pattern::PatternTableSide::Left {
                self.pattern_tables.left.memory@
            } else {
                self.pattern_tables.right.memory@
            };
            let c = tile_pixel(table, tile, (sx % 8) as u8, (sy % 8) as u8);
            if c == 0 {
                None
            } else {
                Some(self.palette_table.color_spec(0, pal, c))
            }
        }
    }

    /// Sprite `i` of OAM.
    pub open spec fn sprite_spec(&self, i: int) -> Sprite {
        oam_sprite_at(self.oam_data@, i)
    }

    /// The bytes of the sprite pattern table.
    pub open spec fn sprite_pattern(&self) -> Seq<u8> {
        if table_side(self.reg_ctrl.value, 0x08) == pattern::PatternTableSide::Left {
            self.pattern_tables.left.memory@
        } else {
            self.pattern_tables.right.memory@
        }
    }

    /// The sprite layer at (x, y); `None` where sprites are off or transparent.
    pub open spec fn sprite_layer(&self, x: u8, y: u8) -> Option<Rgb> {
        if self.reg_mask.value & 0x10 == 0 {
            None
        } else {
            first_sprite_color(self.oam_data@, self.sprite_pattern(), self.palette_table, 0, x, y)
        }
    }

    /// The colour that pixel (x, y) gets: sprites over background over the
    /// universal background colour.
    pub open spec fn pixel_color(&self, x: u8, y: u8) -> Rgb {
        match self.sprite_layer(x, y) {
            Some(c) => c,
            None => match self.bg_pixel(x, y) {
                Some(c) => c,
                None => self.palette_table.universal_spec(),
            },
        }
    }

    /// Sprite 0 is opaque at (x, y) over an opaque background.
    pub open spec fn sprite0_hit_at(&self, x: u8, y: u8) -> bool {
        self.sprite_spec(0).color_spec(x, y, self.sprite_pattern(), self.palette_table).is_some()
            && self.bg_pixel(x, y).is_some()
    }

    /// `post` is this PPU after rasterizing line `y`.
    pub open spec fn render_post(&self, post: Ppu, y: u8) -> bool {
        &&& post == Ppu { render_buffer: post.render_buffer, reg_status: post.reg_status, ..*self }
        &&& post.render_buffer@.len() == self.render_buffer@.len()
        &&& forall|x: u8| #[trigger] pixel_at(post.render_buffer@, x, y) == self.pixel_color(x, y)
        &&& forall|i: int|
            0 <= i < self.render_buffer@.len() && !(768 * y <= i < 768 * y + 768)
                ==> post.render_buffer@[i] == self.render_buffer@[i]
        &&& post.reg_status.value == (if exists|x: u8| #[trigger] self.sprite0_hit_at(x, y) {
            with_bits(self.reg_status.value, 0x40, true)
        } else {
            self.reg_status.value
        })
    }

    /// `post` and `r` are this PPU and its signals after one dot.
    pub open spec fn exec_post(&self, post: Ppu, r: ExecResult) -> bool {
        let c = ((self.cycles_in_line + 1) % 341) as u16;
        if c != 0 {
            post == Ppu { cycles_in_line: c, ..*self } && r == ExecResult {
                vblank_nmi: false,
                new_frame: false,
            }
        } else {
            let s = ((self.scanline + 1) % 262) as u16;
            let mid = Ppu { cycles_in_line: 0, scanline: s, ..*self };
            if s < 240 {
                mid.render_post(post, s as u8) && r == ExecResult {
                    vblank_nmi: false,
                    new_frame: false,
                }
            } else if s == 240 {
                post == Ppu {
                    reg_status: PPUStatus { value: with_bits(self.reg_status.value, 0x80, true) },
                    ..mid
                } && r == ExecResult {
                    vblank_nmi: self.reg_ctrl.value & 0x80 != 0,
                    new_frame: false,
                }
            } else if s == 261 {
                post == Ppu {
                    reg_status: PPUStatus {
                        value: with_bits(with_bits(self.reg_status.value, 0x40, false), 0x80, false),
                    },
                    ..mid
                } && r == ExecResult { vblank_nmi: false, new_frame: true }
            } else {
                post == mid && r == ExecResult { vblank_nmi: false, new_frame: false }
            }
        }
    }
}

impl Ppu {
    /// The PPU at power-up, with pattern tables from `chr_rom`.
    pub fn new(chr_rom: &[u8]) -> (r: Ppu)
        ensures
            r.wf(),
            r.scanline == 0 && r.cycles_in_line == 0,
            r.reg_ctrl.value == 0 && r.reg_mask.value == 0 && r.reg_status.value == 0,
            r.vram_addr == 0 && r.oam_addr == 0 && r.write_latch.is_none(),
            r.scroll == (0u8, 0u8) && r.ppudata_buffer == 0,
            forall|i: int| 0 <= i < 0x2000 ==> pattern_byte(r.pattern_tables, i as u16) == pattern::byte_or_zero(chr_rom@, i),
    {
        Ppu {
            reg_ctrl: PPUCtrl::new(),
            reg_mask: PPUMask::new(),
            reg_status: PPUStatus::new(),
            pattern_tables: PatternTables::new(chr_rom),
            name_table: NameTables::new(),
            palette_table: Palettes::new(),
            vram_addr: 0,
            oam_data: vec![0u8; 256],
            oam_addr: 0,
            scroll: (0, 0),
            write_latch: None,
            scanline: 0,
            cycles_in_line: 0,
            ppudata_buffer: 0,
            render_buffer: vec![0u8; BUFFER_LENGTH],
        }
    }

    /// The PPU at power-up, reading patterns from the cartridge's CHR-ROM.
    pub fn from_cartridge(cartridge: &Cartridge) -> (r: Ppu)
        ensures
            r.wf(),
            r.scanline == 0 && r.cycles_in_line == 0,
            r.reg_ctrl.value == 0 && r.reg_mask.value == 0 && r.reg_status.value == 0,
            r.vram_addr == 0 && r.oam_addr == 0 && r.write_latch.is_none(),
            forall|i: int|
                0 <= i < 0x2000 ==> pattern_byte(r.pattern_tables, i as u16) == pattern::byte_or_zero(
                    cartridge.chr_rom@,
                    i,
                ),
    {
        Ppu::new(cartridge.chr_rom.as_slice())
    }

    /// The RGB frame buffer, 256 x 240 x 3 bytes, row-major.
    pub fn get_buffer(&self) -> (r: &[u8])
        ensures
            r@ == self.render_buffer@,
    {
        self.render_buffer.as_slice()
    }

    fn get_scroll(&self) -> (r: (u16, u16))
        ensures
            r == (self.scroll_x(), self.scroll_y()),
            r.0 < 512 && r.1 < 512,
    {
        let (low_x, low_y) = self.scroll;
        let high_x = self.reg_ctrl.scroll_x_bit8();
        let high_y = self.reg_ctrl.scroll_y_bit8();
        (high_x as u16 * 256 + low_x as u16, high_y as u16 * 256 + low_y as u16)
    }

    fn get_background_color(&self, x: u8, y: u8) -> (r: Option<Rgb>)
        requires
            self.wf(),
        ensures
            r == self.bg_pixel(x, y),
    {
        if !self.reg_mask.show_background() {
            return None;
        }
        let (scroll_x, scroll_y) = self.get_scroll();
        let sx = scroll_x + x as u16;
        let sy = scroll_y + y as u16;
        let pattern_index = self.name_table.get_pattern_index(sx, sy);
        let palette_index = self.name_table.get_palette_index(sx, sy);
        let table = self.pattern_tables.get_table(self.reg_ctrl.background_table());
        let value = table.get_value(pattern_index, (sx % 8) as u8, (sy % 8) as u8);
        if value == 0 {
            None
        } else {
            Some(self.palette_table.get_background_color(palette_index, value))
        }
    }

    fn oam_sprite(&self, i: usize) -> (r: Sprite)
        requires
            self.wf(),
            i < 64,
        ensures
            r == self.sprite_spec(i as int),
    {
        Sprite {
            base_y: self.oam_data[4 * i] as u16 + 1,
            tile_index: self.oam_data[4 * i + 1],
            attribute: SpriteAttribute(self.oam_data[4 * i + 2]),
            base_x: self.oam_data[4 * i + 3],
        }
    }

    fn get_sprite_color(&self, x: u8, y: u8) -> (r: Option<Rgb>)
        requires
            self.wf(),
        ensures
            r == self.sprite_layer(x, y),
    {
        if !self.reg_mask.show_sprite() {
            return None;
        }
        let table = self.pattern_tables.get_table(self.reg_ctrl.sprite_table());
        let mut i: usize = 0;
        while i < 64
            invariant
                i <= 64,
                self.wf(),
                self.reg_mask.value & 0x10 != 0,
                table.wf(),
                table.memory@ == self.sprite_pattern(),
                first_sprite_color(self.oam_data@, table.memory@, self.palette_table, 0, x, y)
                    == first_sprite_color(self.oam_data@, table.memory@, self.palette_table, i as int, x, y),
            decreases 64 - i,
        {
            let c = self.oam_sprite(i).get_color(x, y, table, &self.palette_table);
            if c.is_some() {
                return c;
            }
            i = i + 1;
        }
        None
    }

    fn render_line(&mut self, y: u8)
        requires
            old(self).wf(),
            y < 240,
        ensures
            final(self).wf(),
            old(self).render_post(*final(self), y),
    {
        let ghost pre = *self;
        let mut hit = false;
        let mut x: usize = 0;
        while x < 256
            invariant
                x <= 256,
                y < 240,
                self.wf(),
                pre.wf(),
                *self == (Ppu { render_buffer: self.render_buffer, ..pre }),
                forall|x2: u8| x2 < x ==> #[trigger] pixel_at(self.render_buffer@, x2, y) == pre.pixel_color(x2, y),
                forall|i: int|
                    0 <= i < BUFFER_LENGTH && !(768 * y <= i < 768 * y + 3 * x) ==> self.render_buffer@[i]
                        == pre.render_buffer@[i],
                hit == (exists|x2: u8| x2 < x && #[trigger] pre.sprite0_hit_at(x2, y)),
            decreases 256 - x,
        {
            let xb = x as u8;
            let bg = self.get_background_color(xb, y);
            let sprite0 = self.oam_sprite(0);
            let s0 = sprite0.get_color(
                xb,
                y,
                self.pattern_tables.get_table(self.reg_ctrl.sprite_table()),
                &self.palette_table,
            );
            if s0.is_some() && bg.is_some() {
                hit = true;
            }
            let rgb = match self.get_sprite_color(xb, y) {
                Some(c) => c,
                None => match bg {
                    Some(c) => c,
                    None => self.palette_table.get_universal_background_color(),
                },
            };
            let index = 768 * y as usize + 3 * x;
            let ghost before = self.render_buffer@;
            self.render_buffer.set(index, rgb.r);
            self.render_buffer.set(index + 1, rgb.g);
            self.render_buffer.set(index + 2, rgb.b);
            proof {
                assert(pixel_at(self.render_buffer@, xb, y) == pre.pixel_color(xb, y));
                assert forall|x2: u8| x2 < x + 1 implies #[trigger] pixel_at(self.render_buffer@, x2, y)
                    == pre.pixel_color(x2, y) by {
                    if x2 < x {
                        assert(pixel_at(self.render_buffer@, x2, y) == pixel_at(before, x2, y));
                    }
                }
                if pre.sprite0_hit_at(xb, y) {
                    assert(hit);
                }
                if hit {
                    if !pre.sprite0_hit_at(xb, y) {
                        let w = choose|x2: u8| x2 < x && #[trigger] pre.sprite0_hit_at(x2, y);
                        assert(w < x + 1);
                    }
                }
            }
            x = x + 1;
        }
        proof {
            if exists|x2: u8| #[trigger] pre.sprite0_hit_at(x2, y) {
                let w = choose|x2: u8| #[trigger] pre.sprite0_hit_at(x2, y);
                assert(w < x);
            }
        }
        if hit {
            self.reg_status.set_sprite_0_hit(true);
        }
    }

    /// Advances one dot: rasterizes a line when one starts, raises vblank (and the
    /// NMI when enabled) on entering line 240, and ends the frame on entering line 261.
    pub fn exec(&mut self) -> (r: ExecResult)
        requires
            old(self).wf(),
        ensures
            final(self).wf(),
            old(self).exec_post(*final(self), r),
    {
        let mut result = ExecResult::new();
        self.cycles_in_line = (self.cycles_in_line + 1) % TOTAL_CYCLES_IN_LINE;
        if self.cycles_in_line != 0 {
            return result;
        }
        self.scanline = (self.scanline + 1) % TOTAL_SCANLINE;
        if self.scanline < WINDOW_HEIGHT as u16 {
            let line = self.scanline as u8;
            self.render_line(line);
        } else if self.scanline == WINDOW_HEIGHT as u16 {
            self.reg_status.set_vblank(true);
            if self.reg_ctrl.vblank_nmi() {
                result.vblank_nmi = true;
            }
        } else if self.scanline == TOTAL_SCANLINE - 1 {
            self.reg_status.set_sprite_0_hit(false);
            self.reg_status.set_vblank(false);
            result.new_frame = true;
        }
        result
    }

    fn load_vram(&self, addr: u16) -> (r: u8)
        requires
            self.wf(),
            addr < 0x4000,
        ensures
            r == self.vram_byte(addr),
    {
        if addr < 0x2000 {
            self.pattern_tables.load(addr)
        } else if addr < 0x3f00 {
            self.name_table.load((addr - 0x2000) % 0x1000)
        } else {
            self.palette_table.load((addr - 0x3f00) % 0x20)
        }
    }

    fn store_vram(&mut self, addr: u16, val: u8)
        requires
            old(self).wf(),
            addr < 0x4000,
        ensures
            final(self).wf(),
            old(self).vram_store_post(*final(self), addr, val),
    {
        if addr < 0x2000 {
            // pattern tables are CHR-ROM: the write is dropped
        } else if addr < 0x3f00 {
            self.name_table.store((addr - 0x2000) % 0x1000, val);
        } else {
            self.palette_table.store((addr - 0x3f00) % 0x20, val);
        }
    }

    /// Reads register `addr` (0..7) on behalf of the CPU.
    pub fn load(&mut self, addr: u16) -> (r: u8)
        requires
            old(self).wf(),
            addr < 8,
        ensures
            final(self).wf(),
            r == old(self).load_value(addr),
            *final(self) == old(self).after_load(addr),
    {
        if addr == 2 {
            let status = self.reg_status.to_u8();
            self.reg_status.set_vblank(false);
            self.write_latch = None;
            status
        } else if addr == 4 {
            self.oam_data[self.oam_addr as usize]
        } else if addr == 7 {
            let a = self.vram_addr % 0x4000;
            let buffered = self.ppudata_buffer;
            let fresh = self.load_vram(a);
            let result = if a >= 0x3f00 {
                fresh
            } else {
                buffered
            };
            let incr = self.reg_ctrl.addr_incr() as u16;
            self.vram_addr = self.vram_addr.wrapping_add(incr);
            self.ppudata_buffer = fresh;
            result
        } else {
            0
        }
    }

    /// Writes register `addr` (0..7) on behalf of the CPU.
    pub fn store(&mut self, addr: u16, val: u8)
        requires
            old(self).wf(),
            addr < 8,
        ensures
            final(self).wf(),
            old(self).store_post(*final(self), addr, val),
    {
        let first = self.write_latch;
        if addr == 0 {
            self.reg_ctrl.set_u8(val);
        } else if addr == 1 {
            self.reg_mask.set_u8(val);
        } else if addr == 3 {
            self.oam_addr = val;
        } else if addr == 4 {
            self.write_oam(val);
        } else if addr == 5 {
            match first {
                Some(x) => {
                    self.scroll = (x, val);
                    self.write_latch = None;
                },
                None => {
                    self.write_latch = Some(val);
                },
            }
        } else if addr == 6 {
            match first {
                Some(high) => {
                    self.vram_addr = high as u16 * 256 + val as u16;
                    self.write_latch = None;
                },
                None => {
                    self.write_latch = Some(val);
                },
            }
        } else if addr == 7 {
            let a = self.vram_addr % 0x4000;
            let incr = self.reg_ctrl.addr_incr() as u16;
            self.vram_addr = self.vram_addr.wrapping_add(incr);
            self.store_vram(a, val);
        }
        // the status register is read-only: a write to it changes nothing
    }

    /// Writes `val` at the OAM address and moves the address on by one.
    pub fn write_oam(&mut self, val: u8)
        requires
            old(self).wf(),
        ensures
            final(self).wf(),
            final(self).oam_data@ == old(self).oam_data@.update(old(self).oam_addr as int, val),
            *final(self) == (Ppu {
                oam_data: final(self).oam_data,
                oam_addr: ((old(self).oam_addr + 1) % 256) as u8,
                ..*old(self)
            }),
    {
        let a = self.oam_addr as usize;
        self.oam_data.set(a, val);
        self.oam_addr = self.oam_addr.wrapping_add(1);
    }
}


/// The dot at which a frame ends: scanline 261, dot 0.
pub open spec fn frame_end() -> int {
    89001int
}

/// Dots from position `pos` until the frame next ends, 1 to 262 * 341.
pub open spec fn frame_remaining(pos: int) -> int {
    if pos < frame_end() {
        frame_end() - pos
    } else {
        frame_end() + 89342 - pos
    }
}

/// Dots since the frame last ended.
pub open spec fn since_frame_end(pos: int) -> int {
    (pos - frame_end() + 89342) % 89342
}

/// One dot moves the position on by one, modulo a frame, and `new_frame`
/// fires exactly when the position reaches the frame end; otherwise the dots
/// left until the frame end drop by one.
pub proof fn lemma_dot_advances(pre: Ppu, post: Ppu, r: ExecResult)
    requires
        pre.wf(),
        pre.exec_post(post, r),
    ensures
        post.wf(),
        post.position() == (pre.position() + 1) % 89342int,
        r.new_frame <==> post.position() == frame_end(),
        !r.new_frame ==> frame_remaining(post.position()) == frame_remaining(pre.position()) - 1,
        since_frame_end(post.position()) == (since_frame_end(pre.position()) + 1) % 89342,
{
    let s = pre.scanline as int;
    let c = pre.cycles_in_line as int;
    assert(0 <= s * 341 <= 89001) by (nonlinear_arith)
        requires
            0 <= s < 262,
    ;
    if c + 1 < 341 {
        assert(post.scanline == pre.scanline);
        assert(s * 341 + c + 1 != 89001) by (nonlinear_arith)
            requires
                0 <= c,
                c + 1 < 341,
                0 <= s < 262,
        ;
    } else {
        let s2 = (s + 1) % 262;
        assert(post.scanline == s2 && post.cycles_in_line == 0);
        assert((s * 341 + c + 1) % 89342int == s2 * 341) by (nonlinear_arith)
            requires
                c == 340,
                0 <= s < 262,
                s2 == (s + 1) % 262,
        ;
        assert(s2 * 341 == 89001 <==> s2 == 261) by (nonlinear_arith)
            requires
                0 <= s2 < 262,
        ;
    }
}

/// Over any run of 262 * 341 consecutive dots, the frame end is reached
/// exactly once: at step `frame_remaining(p)` from position `p`.
pub proof fn lemma_one_frame_end_per_period(p: int, k: int)
    requires
        0 <= p < 89342,
        1 <= k <= 89342,
    ensures
        ((p + k) % 89342int == frame_end()) <==> k == frame_remaining(p),
{
}


/// A write to palette entry 0x3F10, 0x3F14, 0x3F18 or 0x3F1C also lands in
/// 0x3F00, 0x3F04, 0x3F08 or 0x3F0C.
pub proof fn lemma_palette_alias(pre: Ppu, post: Ppu, a: u16, val: u8)
    requires
        pre.wf(),
        a == 0x3f10 || a == 0x3f14 || a == 0x3f18 || a == 0x3f1c,
        pre.vram_store_post(post, a, val),
    ensures
        post.vram_byte(a) == val,
        post.vram_byte((a - 0x10) as u16) == val,
{
}

} // verus!
