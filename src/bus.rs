use vstd::prelude::*;

use crate::apu::Apu;
use crate::cartridge::Cartridge;
use crate::dma::Dma;
use crate::joypad::JoyPad;
use crate::memory::Memory;
use crate::ppu::Ppu;

verus! {

/// An access that the memory map has no device for.
#[derive(Debug, Clone, Copy, PartialEq, Eq, Structural)]
pub enum BusFault {
    /// a read of 0x4020..0x7FFF
    UnmappedLoad(u16),
    /// a write of 0x4020..0xFFFF (nothing there, or ROM)
    UnmappedStore(u16),
}

/// The address that follows `a` within its page: the high byte of a 16-bit
/// read or write does not carry out of the page.
pub open spec fn next_in_page(a: u16) -> u16 {
    if a % 256 == 255 {
        (a - 255) as u16
    } else {
        (a + 1) as u16
    }
}

/// The CPU's memory map, with the devices behind it.
pub struct Bus {
    pub cartridge: Cartridge,
    pub wram: Memory,
    pub ppu: Ppu,
    pub apu: Apu,
    pub joypad: JoyPad,
    pub dma: Dma,
    /// the first access that hit no device; execution must stop
    pub fault: Option<BusFault>,
}

impl Bus {
    pub open spec fn wf(&self) -> bool {
        self.wram.wf() && self.ppu.wf() && self.apu.wf()
    }

    /// The byte that a CPU read of `addr` returns.
    #[verifier::opaque]
    pub open spec fn value_at(&self, addr: u16) -> u8 {
        if addr <= 0x1fff {
            self.wram.cells@[(addr % 0x800) as int]
        } else if addr <= 0x3fff {
            self.ppu.load_value(((addr - 0x2000) % 8) as u16)
        } else if addr == 0x4016 {
            self.joypad.buffer & 1
        } else if addr <= 0x7fff {
            0
        } else if addr - 0x8000 < self.cartridge.prg_rom@.len() {
            self.cartridge.prg_rom@[addr - 0x8000]
        } else {
            0
        }
    }

    /// The little-endian word at `addr` and the byte after it in its page.
    pub open spec fn value_w(&self, addr: u16) -> u16 {
        (self.value_at(addr) + 256 * self.value_at(next_in_page(addr))) as u16
    }

    /// The bus after a CPU read of `addr`: PPU registers and the controller
    /// change when read, and an unmapped read is recorded.
    pub open spec fn after_load(self, addr: u16) -> Bus {
        if addr <= 0x1fff {
            self
        } else if addr <= 0x3fff {
            Bus { ppu: self.ppu.after_load(((addr - 0x2000) % 8) as u16), ..self }
        } else if addr == 0x4016 {
            Bus { joypad: self.joypad.after_load(), ..self }
        } else if 0x4020 <= addr <= 0x7fff {
            Bus { fault: Some(BusFault::UnmappedLoad(addr)), ..self }
        } else {
            self
        }
    }

    /// Work RAM of `post` is `cells`, and nothing else differs from this bus.
    pub open spec fn wram_now(&self, post: Bus, cells: Seq<u8>) -> bool {
        &&& post.wram.wf()
        &&& post.wram.cells@ == cells
        &&& post == Bus { wram: post.wram, ..*self }
    }

    /// `post` has the same held keys and the same PPU dot position.
    pub open spec fn keeps_clock_and_keys(&self, post: Bus) -> bool {
        &&& post.joypad.key_state == self.joypad.key_state
        &&& post.ppu.scanline == self.ppu.scanline
        &&& post.ppu.cycles_in_line == self.ppu.cycles_in_line
    }

    /// `post` is this bus after a CPU write of `val` to `addr`.
    #[verifier::opaque]
    pub open spec fn store_post(&self, post: Bus, addr: u16, val: u8) -> bool {
        if addr <= 0x1fff {
            self.wram_now(post, self.wram.cells@.update((addr % 0x800) as int, val))
        } else if addr <= 0x3fff {
            self.ppu.store_post(post.ppu, ((addr - 0x2000) % 8) as u16, val) && post == Bus {
                ppu: post.ppu,
                ..*self
            }
        } else if addr == 0x4014 {
            post == Bus { dma: Dma { high: Some(val) }, ..*self }
        } else if addr == 0x4016 {
            post == Bus { joypad: self.joypad.after_store(val), ..*self }
        } else if addr <= 0x401f {
            self.apu.store_post(post.apu, (addr - 0x4000) as u16, val) && post == Bus {
                apu: post.apu,
                ..*self
            }
        } else {
            post == Bus { fault: Some(BusFault::UnmappedStore(addr)), ..*self }
        }
    }

    /// Wires the devices to the memory map.
    pub fn new(
        cartridge: Cartridge,
        wram: Memory,
        ppu: Ppu,
        apu: Apu,
        joypad: JoyPad,
        dma: Dma,
    ) -> (r: Bus)
        ensures
            r == (Bus { cartridge, wram, ppu, apu, joypad, dma, fault: None }),
    {
        Bus { cartridge, wram, ppu, apu, joypad, dma, fault: None }
    }

    /// The byte that a read of `addr` would return, without reading it.
    pub fn peek(&self, addr: u16) -> (r: u8)
        requires
            self.wf(),
        ensures
            r == self.value_at(addr),
    {
        reveal(Bus::value_at);
        if addr <= 0x1fff {
            self.wram.load(addr % 0x800)
        } else if addr <= 0x3fff {
            let reg = (addr - 0x2000) % 8;
            if reg == 2 {
                self.ppu.reg_status.value
            } else if reg == 4 {
                self.ppu.oam_data[self.ppu.oam_addr as usize]
            } else if reg == 7 {
                let a = self.ppu.vram_addr % 0x4000;
                if a >= 0x3f00 {
                    self.ppu.palette_table.load((a - 0x3f00) % 0x20)
                } else {
                    self.ppu.ppudata_buffer
                }
            } else {
                0
            }
        } else if addr == 0x4016 {
            self.joypad.buffer & 1
        } else if addr <= 0x7fff {
            0
        } else {
            let i = (addr - 0x8000) as usize;
            if i < self.cartridge.prg_rom.len() {
                self.cartridge.prg_rom[i]
            } else {
                0
            }
        }
    }

    /// The word that `value_w` describes, without reading it.
    pub fn peek_w(&self, addr: u16) -> (r: u16)
        requires
            self.wf(),
        ensures
            r == self.value_w(addr),
    {
        let next = if addr % 256 == 255 {
            addr - 255
        } else {
            addr + 1
        };
        self.peek(addr) as u16 + 256 * self.peek(next) as u16
    }

    /// Reads one byte.
    pub fn load(&mut self, addr: u16) -> (r: u8)
        requires
            old(self).wf(),
        ensures
            final(self).wf(),
            r == old(self).value_at(addr),
            *final(self) == old(self).after_load(addr),
    {
        reveal(Bus::value_at);
        if addr <= 0x1fff {
            self.wram.load(addr % 0x800)
        } else if addr <= 0x3fff {
            self.ppu.load((addr - 0x2000) % 8)
        } else if addr == 0x4016 {
            self.joypad.load()
        } else if addr <= 0x401f {
            self.apu.load(addr - 0x4000)
        } else if addr <= 0x7fff {
            self.fault = Some(BusFault::UnmappedLoad(addr));
            0
        } else {
            let i = (addr - 0x8000) as usize;
            if i < self.cartridge.prg_rom.len() {
                self.cartridge.prg_rom[i]
            } else {
                0
            }
        }
    }

    /// Writes one byte.
    pub fn store(&mut self, addr: u16, val: u8)
        requires
            old(self).wf(),
        ensures
            final(self).wf(),
            old(self).store_post(*final(self), addr, val),
            old(self).keeps_clock_and_keys(*final(self)),
    {
        reveal(Bus::store_post);
        if addr <= 0x1fff {
            self.wram.store(addr % 0x800, val);
        } else if addr <= 0x3fff {
            self.ppu.store((addr - 0x2000) % 8, val);
        } else if addr == 0x4014 {
            self.dma.write(val);
        } else if addr == 0x4016 {
            self.joypad.store(val);
        } else if addr <= 0x401f {
            self.apu.store(addr - 0x4000, val);
        } else {
            self.fault = Some(BusFault::UnmappedStore(addr));
        }
    }

    /// Reads a little-endian word; the high byte comes from the same page.
    pub fn load_w(&mut self, addr: u16) -> (r: u16)
        requires
            old(self).wf(),
        ensures
            final(self).wf(),
            r == old(self).value_at(addr) + 256 * old(self).after_load(addr).value_at(next_in_page(addr)),
            *final(self) == old(self).after_load(addr).after_load(next_in_page(addr)),
    {
        let next = if addr % 256 == 255 {
            addr - 255
        } else {
            addr + 1
        };
        let low = self.load(addr);
        let high = self.load(next);
        low as u16 + 256 * high as u16
    }

    /// `post` is this bus after a word write of `val` at `addr`.
    pub open spec fn store_w_post(&self, post: Bus, addr: u16, val: u16) -> bool {
        exists|mid: Bus|
            self.store_post(mid, addr, (val % 256) as u8) && #[trigger] mid.store_post(
                post,
                next_in_page(addr),
                (val / 256) as u8,
            )
    }

    /// Writes a little-endian word; the high byte goes to the same page.
    pub fn store_w(&mut self, addr: u16, val: u16)
        requires
            old(self).wf(),
        ensures
            final(self).wf(),
            old(self).store_w_post(*final(self), addr, val),
    {
        let next = if addr % 256 == 255 {
            addr - 255
        } else {
            addr + 1
        };
        self.store(addr, (val % 256) as u8);
        let ghost mid = *self;
        self.store(next, (val / 256) as u8);
        assert(mid.store_post(*self, next_in_page(addr), (val / 256) as u8));
    }
}

/// A word written to work RAM reads back unchanged, including across the end
/// of a page, where the high byte wraps to the start of the same page.
pub proof fn lemma_store_w_load_w(b: Bus, post: Bus, addr: u16, val: u16)
    requires
        b.wf(),
        addr <= 0x1fff,
        b.store_w_post(post, addr, val),
    ensures
        post.value_at(addr) + 256 * post.after_load(addr).value_at(next_in_page(addr)) == val,
{
    reveal(Bus::store_post);
    reveal(Bus::value_at);
    let mid = choose|mid: Bus|
        b.store_post(mid, addr, (val % 256) as u8) && #[trigger] mid.store_post(
            post,
            next_in_page(addr),
            (val / 256) as u8,
        );
    assert(next_in_page(addr) <= 0x1fff);
    assert(addr % 0x800 != next_in_page(addr) % 0x800);
}

/// Work RAM repeats every 0x800 bytes below 0x2000.
pub proof fn lemma_wram_mirror(b: Bus, addr: u16)
    requires
        addr <= 0x1fff,
    ensures
        b.value_at(addr) == b.value_at(addr % 0x800),
        b.value_at(addr) == b.value_at(addr & 0x7ff),
{
    reveal(Bus::value_at);
    assert(addr & 0x7ff == addr % 0x800) by (bit_vector);
}

/// The PPU registers repeat every 8 bytes from 0x2000 to 0x3FFF: reads,
/// their side effects and writes all see only `addr & 0x2007`.
pub proof fn lemma_ppu_mirror(b: Bus, post: Bus, addr: u16, val: u8)
    requires
        0x2008 <= addr <= 0x3fff,
    ensures
        b.value_at(addr) == b.value_at(addr & 0x2007),
        b.after_load(addr) == b.after_load(addr & 0x2007),
        b.store_post(post, addr, val) == b.store_post(post, addr & 0x2007, val),
{
    reveal(Bus::store_post);
    reveal(Bus::value_at);
    assert(0x2000 <= addr & 0x2007 <= 0x2007) by (bit_vector)
        requires
            0x2008 <= addr <= 0x3fff,
    ;
    assert((addr - 0x2000) % 8 == ((addr & 0x2007) - 0x2000) % 8) by (bit_vector)
        requires
            0x2008 <= addr <= 0x3fff,
    ;
}

/// Changing work RAM alone leaves what reads of PRG-ROM return.
pub proof fn lemma_wram_write_keeps_rom(b: Bus, post: Bus, addr: u16)
    requires
        post == (Bus { wram: post.wram, ..b }),
        addr >= 0x8000,
    ensures
        post.value_at(addr) == b.value_at(addr),
{
    reveal(Bus::value_at);
}

/// Recording a fault changes no value that a read returns.
pub proof fn lemma_fault_keeps_values(b: Bus, f: Option<BusFault>)
    ensures
        forall|a: u16| (#[trigger] (Bus { fault: f, ..b }).value_at(a)) == b.value_at(a),
{
    reveal(Bus::value_at);
}

} // verus!
