//! A NES emulator core: a 6502 processor, the picture and audio units, OAM DMA
//! and the controller, joined by the CPU memory map and run a frame at a time.
use vstd::prelude::*;

pub mod apu;
pub mod bus;
pub mod cartridge;
pub mod cpu;
pub mod dma;
pub mod joypad;
pub mod memory;
pub mod ppu;

pub use crate::apu::ChannelLevels;
pub use crate::cartridge::Cartridge;
pub use crate::joypad::Key;
pub use crate::joypad::KeyState;
pub use crate::ppu::WINDOW_HEIGHT;
pub use crate::ppu::WINDOW_WIDTH;

use crate::apu::{Apu, ticks_run};
use crate::bus::{Bus, BusFault, lemma_fault_keeps_values};
use crate::cpu::instructions::{instruction_table, lemma_cycles_in_range};
use crate::cpu::{Cpu, CpuError, abs_word, bus_after_fetch_error, fetch_error, nmi_post, step_post};
use crate::dma::Dma;
use crate::joypad::JoyPad;
use crate::memory::Memory;
use crate::ppu::pattern::{byte_or_zero, pattern_byte};
use crate::ppu::{ExecResult, Ppu, frame_remaining, lemma_dot_advances, since_frame_end};

verus! {

/// Why a frame could not be finished.
#[derive(Debug, Clone, Copy, PartialEq, Eq, Structural)]
pub enum NesError {
    /// the processor could not fetch or decode an instruction
    Cpu(CpuError),
    /// a program touched an address with no device behind it
    Bus(BusFault),
}

/// The whole console.
pub struct Nes {
    pub cpu: Cpu,
    pub bus: Bus,
}

/// `ts` runs dot by dot: `ts[i + 1]` is `ts[i]` after one dot reporting `rs[i]`.
pub open spec fn dots_run(ts: Seq<Ppu>, rs: Seq<ExecResult>) -> bool {
    &&& ts.len() == rs.len() + 1
    &&& forall|i: int| 0 <= i < rs.len() ==> #[trigger] ts[i].exec_post(ts[i + 1], rs[i])
}

/// Some dot of `rs` asked for an NMI.
pub open spec fn any_nmi(rs: Seq<ExecResult>) -> bool {
    exists|i: int| 0 <= i < rs.len() && #[trigger] rs[i].vblank_nmi
}

/// Some dot of `rs` ended a frame.
pub open spec fn any_frame(rs: Seq<ExecResult>) -> bool {
    exists|i: int| 0 <= i < rs.len() && #[trigger] rs[i].new_frame
}

/// `post` is `pre` after the DMA step, which stole `stall` cycles: a scheduled
/// transfer copies the page into OAM from the OAM address on and steals 514
/// cycles; with none scheduled nothing changes and none are stolen.
pub open spec fn dma_post(pre: Bus, post: Bus, stall: int) -> bool {
    &&& post.dma.high is None
    &&& match pre.dma.high {
        None => stall == 0 && post == Bus { dma: post.dma, ..pre },
        Some(high) => {
            &&& stall == 514
            &&& post == Bus { dma: post.dma, ppu: post.ppu, ..pre }
            &&& post.ppu == Ppu { oam_data: post.ppu.oam_data, ..pre.ppu }
            &&& forall|i: int|
                0 <= i < 256 ==> #[trigger] post.ppu.oam_data@[(pre.ppu.oam_addr + i) % 256]
                    == pre.wram.cells@[(high * 256 + i) % 2048]
        },
    }
}

/// One pass of the frame loop from `pre` to `post`, reporting `frame`, with
/// its intermediate states: `mid` after the instruction of `cycles` cycles,
/// `dmad` after the DMA step of `stall` cycles, then 3 PPU dots (`ppus`,
/// `dots`) and one APU tick (`apus`) per cycle, and last the NMI when a dot
/// asked for one.
pub open spec fn iteration_with(
    pre: Nes,
    post: Nes,
    frame: bool,
    mid: Nes,
    dmad: Nes,
    ppus: Seq<Ppu>,
    dots: Seq<ExecResult>,
    apus: Seq<Apu>,
    cycles: int,
    stall: int,
) -> bool {
    &&& fetch_error(pre.cpu.reg, pre.bus) is None
    &&& (instruction_table(pre.bus.value_at(pre.cpu.reg.PC)) matches Some(inst) && cycles == inst.cycles
        && step_post(pre.cpu.reg, pre.bus, inst, mid.cpu.reg, mid.bus))
    &&& mid.bus.fault is None
    &&& dma_post(mid.bus, dmad.bus, stall)
    &&& dmad.cpu == mid.cpu
    &&& dots_run(ppus, dots)
    &&& dots.len() == 3 * (cycles + stall)
    &&& ppus[0] == dmad.bus.ppu
    &&& ticks_run(apus)
    &&& apus.len() == cycles + stall + 1
    &&& apus[0] == dmad.bus.apu
    &&& if any_nmi(dots) {
        nmi_post(dmad.cpu.reg, Bus { ppu: ppus.last(), apu: apus.last(), ..dmad.bus }, post.cpu.reg, post.bus)
    } else {
        post.cpu == dmad.cpu && post.bus == (Bus { ppu: ppus.last(), apu: apus.last(), ..dmad.bus })
    }
    &&& frame == any_frame(dots)
}

/// One pass of the frame loop from `pre` to `post`, reporting `frame`.
pub open spec fn iteration(pre: Nes, post: Nes, frame: bool) -> bool {
    exists|
        mid: Nes,
        dmad: Nes,
        ppus: Seq<Ppu>,
        dots: Seq<ExecResult>,
        apus: Seq<Apu>,
        cycles: int,
        stall: int,
    | #[trigger] iteration_with(pre, post, frame, mid, dmad, ppus, dots, apus, cycles, stall)
}

/// Consecutive passes of the frame loop, none of which ends a frame.
pub open spec fn quiet_run(trace: Seq<Nes>) -> bool {
    &&& trace.len() >= 1
    &&& forall|i: int| 0 <= i < trace.len() - 1 ==> #[trigger] iteration(trace[i], trace[i + 1], false)
}

/// `n` with `keys` latched into the controller.
pub open spec fn with_keys(n: Nes, keys: KeyState) -> Nes {
    Nes { bus: Bus { joypad: JoyPad { key_state: keys, ..n.bus.joypad }, ..n.bus }, ..n }
}

proof fn lemma_dots_push(ts: Seq<Ppu>, rs: Seq<ExecResult>, t: Ppu, r: ExecResult)
    requires
        dots_run(ts, rs),
        ts.last().exec_post(t, r),
    ensures
        dots_run(ts.push(t), rs.push(r)),
        any_nmi(rs.push(r)) == (any_nmi(rs) || r.vblank_nmi),
        any_frame(rs.push(r)) == (any_frame(rs) || r.new_frame),
{
    let ts2 = ts.push(t);
    let rs2 = rs.push(r);
    assert forall|i: int| 0 <= i < rs2.len() implies #[trigger] ts2[i].exec_post(ts2[i + 1], rs2[i]) by {
        if i < rs.len() {
            assert(ts2[i] == ts[i] && ts2[i + 1] == ts[i + 1] && rs2[i] == rs[i]);
        }
    }
    if any_nmi(rs) {
        let w = choose|i: int| 0 <= i < rs.len() && #[trigger] rs[i].vblank_nmi;
        assert(rs2[w].vblank_nmi);
    }
    if any_frame(rs) {
        let w = choose|i: int| 0 <= i < rs.len() && #[trigger] rs[i].new_frame;
        assert(rs2[w].new_frame);
    }
    if r.vblank_nmi {
        assert(rs2[rs.len() as int].vblank_nmi);
    }
    if r.new_frame {
        assert(rs2[rs.len() as int].new_frame);
    }
    if any_nmi(rs2) {
        let w = choose|i: int| 0 <= i < rs2.len() && #[trigger] rs2[i].vblank_nmi;
        if w < rs.len() {
            assert(rs[w].vblank_nmi);
        }
    }
    if any_frame(rs2) {
        let w = choose|i: int| 0 <= i < rs2.len() && #[trigger] rs2[i].new_frame;
        if w < rs.len() {
            assert(rs[w].new_frame);
        }
    }
}

proof fn lemma_ticks_push(ts: Seq<Apu>, t: Apu)
    requires
        ticks_run(ts),
        ts.last().tick_post(t),
    ensures
        ticks_run(ts.push(t)),
{
    let ts2 = ts.push(t);
    assert forall|i: int| 0 <= i < ts2.len() - 1 implies #[trigger] ts2[i].tick_post(ts2[i + 1]) by {
        if i < ts.len() - 1 {
            assert(ts2[i] == ts[i] && ts2[i + 1] == ts[i + 1]);
        }
    }
}

proof fn lemma_quiet_push(trace: Seq<Nes>, n: Nes)
    requires
        quiet_run(trace),
        iteration(trace.last(), n, false),
    ensures
        quiet_run(trace.push(n)),
        trace.push(n)[0] == trace[0],
        trace.push(n).last() == n,
{
    let t2 = trace.push(n);
    assert forall|i: int| 0 <= i < t2.len() - 1 implies #[trigger] iteration(t2[i], t2[i + 1], false) by {
        if i < trace.len() - 1 {
            assert(t2[i] == trace[i] && t2[i + 1] == trace[i + 1]);
        } else {
            assert(t2[i] == trace.last() && t2[i + 1] == n);
        }
    }
}

impl Nes {
    pub open spec fn wf(&self) -> bool {
        self.cpu.wf() && self.bus.wf()
    }

    /// The console with `cartridge` inserted, after reset: every device at
    /// power-up, and the processor at the reset vector.
    pub fn with_cartridge(cartridge: Cartridge) -> (r: Nes)
        ensures
            r.wf(),
            r.bus.fault.is_none(),
            r.bus.cartridge == cartridge,
            forall|i: int| 0 <= i < 2048 ==> r.bus.wram.cells@[i] == 0,
            r.bus.ppu.scanline == 0 && r.bus.ppu.cycles_in_line == 0,
            r.bus.ppu.reg_ctrl.value == 0 && r.bus.ppu.reg_mask.value == 0 && r.bus.ppu.reg_status.value == 0,
            r.bus.ppu.vram_addr == 0 && r.bus.ppu.oam_addr == 0 && r.bus.ppu.write_latch.is_none(),
            forall|i: int|
                0 <= i < 0x2000 ==> pattern_byte(r.bus.ppu.pattern_tables, i as u16) == byte_or_zero(
                    cartridge.chr_rom@,
                    i,
                ),
            r.bus.apu.clocks == 0 && r.bus.apu.buffer@.len() == 0,
            r.bus.joypad == (JoyPad { key_state: KeyState(0), buffer: 0, strobe_bit: false }),
            r.bus.dma.high.is_none(),
            r.cpu.reg.A == 0 && r.cpu.reg.X == 0 && r.cpu.reg.Y == 0,
            r.cpu.reg.S == 0xfd && r.cpu.reg.P.0 == 0x24,
            r.cpu.reg.PC == abs_word(r.bus, 0xfffc),
    {
        let wram = Memory::new();
        let apu = Apu::new();
        let ppu = Ppu::from_cartridge(&cartridge);
        let mut cpu = Cpu::new();
        let joypad = JoyPad::new();
        let dma = Dma::new();
        let mut bus = Bus::new(cartridge, wram, ppu, apu, joypad, dma);
        cpu.reset(&mut bus);
        Nes { cpu, bus }
    }

    /// Runs the console until the picture unit ends a frame: latches the keys,
    /// then repeats one instruction, a pending DMA, three PPU dots and one APU
    /// tick per cycle of both, and an NMI when a dot asked for one. It returns
    /// after the first pass whose dots ended a frame, or stops at the first
    /// instruction that cannot be fetched or that touches an unmapped address.
    #[verifier::rlimit(100)]
    pub fn next_frame(&mut self, key_state: KeyState) -> (r: Result<(), NesError>)
        requires
            old(self).wf(),
        ensures
            final(self).wf(),
            final(self).bus.joypad.key_state == key_state,
            r is Ok ==> since_frame_end(final(self).bus.ppu.position()) < 3 * (7 + 514),
            match r {
                Ok(()) => exists|trace: Seq<Nes>|
                    #![trigger quiet_run(trace)]
                    quiet_run(trace) && trace[0] == with_keys(*old(self), key_state) && iteration(
                        trace.last(),
                        *final(self),
                        true,
                    ),
                Err(NesError::Cpu(e)) => {
                    &&& fetch_error(final(self).cpu.reg, final(self).bus) == Some(e)
                    &&& exists|trace: Seq<Nes>|
                        #![trigger quiet_run(trace)]
                        quiet_run(trace) && trace[0] == with_keys(*old(self), key_state) && trace.last().cpu
                            == final(self).cpu && fetch_error(trace.last().cpu.reg, trace.last().bus)
                            == Some(e) && final(self).bus == bus_after_fetch_error(trace.last().bus, e)
                },
                Err(NesError::Bus(f)) => {
                    &&& final(self).bus.fault == Some(f)
                    &&& exists|trace: Seq<Nes>|
                        #![trigger quiet_run(trace)]
                        quiet_run(trace) && trace[0] == with_keys(*old(self), key_state) && fetch_error(
                            trace.last().cpu.reg,
                            trace.last().bus,
                        ) is None && (instruction_table(trace.last().bus.value_at(trace.last().cpu.reg.PC))
                            matches Some(inst) && step_post(
                            trace.last().cpu.reg,
                            trace.last().bus,
                            inst,
                            final(self).cpu.reg,
                            final(self).bus,
                        ))
                },
            },
    {
        self.bus.joypad.set_key_state(key_state);
        let ghost start = *self;
        let ghost mut trace: Seq<Nes> = seq![*self];
        loop
            invariant
                self.wf(),
                self.bus.joypad.key_state == key_state,
                quiet_run(trace),
                trace[0] == start,
                trace.last() == *self,
                start == with_keys(*old(self), key_state),
            decreases frame_remaining(self.bus.ppu.position()),
        {
            let ghost pre = *self;
            let ghost start_dist = frame_remaining(self.bus.ppu.position());
            proof {
                lemma_cycles_in_range(self.bus.value_at(self.cpu.reg.PC));
            }
            let cycle = match self.cpu.exec(&mut self.bus) {
                Ok(c) => c as usize,
                Err(e) => {
                    proof {
                        lemma_fault_keeps_values(pre.bus, self.bus.fault);
                        assert(self.bus == (Bus { fault: self.bus.fault, ..pre.bus }));
                    }
                    return Err(NesError::Cpu(e));
                },
            };
            match self.bus.fault {
                Some(f) => {
                    return Err(NesError::Bus(f));
                },
                None => {},
            }
            let ghost mid = *self;
            let steal = self.bus.dma.transfer(&self.bus.wram, &mut self.bus.ppu) as usize;
            let ghost dmad = *self;
            assert(dma_post(mid.bus, dmad.bus, steal as int));
            let total = cycle + steal;
            let mut vblank_nmi = false;
            let mut new_frame = false;
            let ghost mut ppus: Seq<Ppu> = seq![self.bus.ppu];
            let ghost mut dots: Seq<ExecResult> = seq![];
            let mut i: usize = 0;
            while i < 3 * total
                invariant
                    self.wf(),
                    self.bus.joypad.key_state == key_state,
                    2 <= total <= 7 + 514,
                    self.bus.fault.is_none(),
                    i <= 3 * total,
                    !new_frame ==> frame_remaining(self.bus.ppu.position()) == start_dist - i,
                    new_frame ==> since_frame_end(self.bus.ppu.position()) < i,
                    dots_run(ppus, dots),
                    dots.len() == i,
                    ppus[0] == dmad.bus.ppu,
                    ppus.last() == self.bus.ppu,
                    self.cpu == dmad.cpu,
                    self.bus == (Bus { ppu: self.bus.ppu, ..dmad.bus }),
                    vblank_nmi == any_nmi(dots),
                    new_frame == any_frame(dots),
                decreases 3 * total - i,
            {
                let ghost before = self.bus.ppu;
                let res = self.bus.ppu.exec();
                proof {
                    lemma_dot_advances(before, self.bus.ppu, res);
                    lemma_dots_push(ppus, dots, self.bus.ppu, res);
                    ppus = ppus.push(self.bus.ppu);
                    dots = dots.push(res);
                }
                if res.vblank_nmi {
                    vblank_nmi = true;
                }
                if res.new_frame {
                    new_frame = true;
                }
                i = i + 1;
            }
            let ghost mut apus: Seq<Apu> = seq![self.bus.apu];
            let mut j: usize = 0;
            while j < total
                invariant
                    self.wf(),
                    self.bus.joypad.key_state == key_state,
                    !new_frame ==> frame_remaining(self.bus.ppu.position()) == start_dist - 3 * total,
                    new_frame ==> since_frame_end(self.bus.ppu.position()) < 3 * total,
                    j <= total,
                    self.bus.fault.is_none(),
                    ticks_run(apus),
                    apus.len() == j + 1,
                    apus[0] == dmad.bus.apu,
                    apus.last() == self.bus.apu,
                    self.cpu == dmad.cpu,
                    self.bus == (Bus { apu: self.bus.apu, ppu: ppus.last(), ..dmad.bus }),
                decreases total - j,
            {
                self.bus.apu.tick();
                proof {
                    lemma_ticks_push(apus, self.bus.apu);
                    apus = apus.push(self.bus.apu);
                }
                j = j + 1;
            }
            if vblank_nmi {
                self.cpu.nmi(&mut self.bus);
            }
            proof {
                assert(iteration_with(pre, *self, new_frame, mid, dmad, ppus, dots, apus, cycle as int, steal as int));
            }
            if new_frame {
                return Ok(());
            }
            proof {
                lemma_quiet_push(trace, *self);
                trace = trace.push(*self);
            }
        }
    }

    /// The picture of the last frame: 256 x 240 RGB triples, row-major.
    pub fn get_frame_buffer(&self) -> (r: &[u8])
        ensures
            r@ == self.bus.ppu.render_buffer@,
    {
        self.bus.ppu.get_buffer()
    }

    /// The audio samples gathered since the last call, oldest first.
    pub fn consume_audio_buffer(&mut self) -> (r: Vec<ChannelLevels>)
        requires
            old(self).wf(),
        ensures
            final(self).wf(),
            r@ == old(self).bus.apu.buffer@,
            final(self).bus.apu.buffer@.len() == 0,
    {
        self.bus.apu.consume_buffer()
    }
}

} // verus!
