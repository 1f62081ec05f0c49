use vstd::prelude::*;

use crate::memory::Memory;
use crate::ppu::Ppu;

verus! {

/// CPU cycles that one transfer steals.
pub const DMA_CYCLES: u16 = 514;

/// OAM DMA: a write to 0x4014 schedules a copy of one 256-byte page into OAM.
#[derive(Debug, Clone, Copy, PartialEq, Eq, Structural)]
pub struct Dma {
    /// the page of a scheduled transfer
    pub high: Option<u8>,
}

impl Dma {
    pub fn new() -> (r: Dma)
        ensures
            r.high.is_none(),
    {
        Dma { high: None }
    }

    /// Schedules a transfer from page `value`.
    pub fn write(&mut self, value: u8)
        ensures
            final(self).high == Some(value),
    {
        self.high = Some(value);
    }

    /// Runs a scheduled transfer: the 256 bytes of the page (read from work RAM,
    /// mirrored) go through the OAM data port, and 514 stolen cycles are
    /// reported; with nothing scheduled, nothing happens and 0 is returned.
    pub fn transfer(&mut self, memory: &Memory, ppu: &mut Ppu) -> (r: u16)
        requires
            memory.wf(),
            old(ppu).wf(),
        ensures
            final(ppu).wf(),
            final(self).high.is_none(),
            match old(self).high {
                None => r == 0 && *final(ppu) == *old(ppu),
                Some(high) => {
                    &&& r == DMA_CYCLES
                    &&& *final(ppu) == (Ppu { oam_data: final(ppu).oam_data, ..*old(ppu) })
                    &&& forall|i: int|
                        0 <= i < 256 ==> #[trigger] final(ppu).oam_data@[(old(ppu).oam_addr + i) % 256]
                            == memory.cells@[(high * 256 + i) % 2048]
                },
            },
    {
        match self.high {
            None => 0,
            Some(high) => {
                let ghost pre = *ppu;
                let mut low: u16 = 0;
                while low < 0x100
                    invariant
                        low <= 0x100,
                        memory.wf(),
                        ppu.wf(),
                        *ppu == (Ppu {
                            oam_data: ppu.oam_data,
                            oam_addr: ((pre.oam_addr + low) % 256) as u8,
                            ..pre
                        }),
                        forall|i: int|
                            0 <= i < low ==> #[trigger] ppu.oam_data@[(pre.oam_addr + i) % 256]
                                == memory.cells@[(high * 256 + i) % 2048],
                    decreases 0x100 - low,
                {
                    let addr = ((high as u16) * 256 + low) % 2048;
                    let v = memory.load(addr);
                    let ghost before = ppu.oam_data@;
                    ppu.write_oam(v);
                    proof {
                        assert forall|i: int| 0 <= i < low + 1 implies #[trigger] ppu.oam_data@[(pre.oam_addr + i) % 256]
                            == memory.cells@[(high * 256 + i) % 2048] by {
                            if i < low {
                                assert((pre.oam_addr + i) % 256 != (pre.oam_addr + low) % 256);
                                assert(ppu.oam_data@[(pre.oam_addr + i) % 256] == before[(pre.oam_addr + i) % 256]);
                            }
                        }
                    }
                    low = low + 1;
                }
                self.high = None;
                DMA_CYCLES
            },
        }
    }
}

} // verus!
