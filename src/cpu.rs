use vstd::prelude::*;

pub mod instructions;
pub mod register;

pub use crate::bus::Bus;

use crate::bus::{BusFault, next_in_page};

use crate::bus::lemma_wram_write_keeps_rom;

use crate::cpu::instructions::{
    AddressingMode,
    Instruction,
    Opcode,
    instruction_table,
    operand_bytes_spec,
};
use crate::cpu::register::{
    BREAK,
    CARRY,
    DECIMAL,
    INTERRUPT,
    NEGATIVE,
    OVERFLOW,
    Register,
    StatusRegister,
    ZERO,
    has_flag,
    with_flag,
};

verus! {

/// The operand of an instruction, once its addressing mode is resolved.
#[derive(Debug, Clone, Copy, PartialEq, Eq, Structural)]
pub enum Operand {
    Implied,
    Immediate(u8),
    Accumulator,
    Memory(u16),
}

/// Why the processor stopped.
#[derive(Debug, Clone, Copy, PartialEq, Eq, Structural)]
pub enum CpuError {
    /// the byte at `pc` is not a documented opcode
    UnknownOpcode { code: u8, pc: u16 },
    /// an instruction byte or an indirect pointer lies at `addr`, where no
    /// device answers
    UnmappedFetch { addr: u16 },
}

pub open spec fn wrap8(x: int) -> u8 {
    (x % 256) as u8
}

pub open spec fn wrap16(x: int) -> u16 {
    (x % 65536) as u16
}

/// Bit 7: the sign of a byte.
pub open spec fn neg(v: u8) -> bool {
    v >= 0x80
}

/// A byte read as a signed offset.
pub open spec fn sign_extend(b: u8) -> int {
    if b < 128 {
        b as int
    } else {
        b - 256
    }
}

/// `p` with Z and N set from `v`.
pub open spec fn zn(p: u8, v: u8) -> u8 {
    with_flag(with_flag(p, ZERO, v == 0), NEGATIVE, neg(v))
}

/// Once a value `v` sets the flags, N is its bit 7 and Z says whether it is
/// zero; the other bits of P, bit 5 among them, stay as they were.
pub proof fn lemma_zn_flags(p: u8, v: u8)
    ensures
        has_flag(zn(p, v), NEGATIVE) == (v >= 0x80),
        has_flag(zn(p, v), ZERO) == (v == 0),
        zn(p, v) & 0x7d == p & 0x7d,
{
    if v == 0 {
        assert(((p | 2) & !0x80u8) & 0x80 == 0 && ((p | 2) & !0x80u8) & 2 != 0 && ((p | 2) & !0x80u8)
            & 0x7d == p & 0x7d) by (bit_vector);
    } else if v >= 0x80 {
        assert(((p & !2u8) | 0x80) & 0x80 != 0 && ((p & !2u8) | 0x80) & 2 == 0 && ((p & !2u8) | 0x80)
            & 0x7d == p & 0x7d) by (bit_vector);
    } else {
        assert(((p & !2u8) & !0x80u8) & 0x80 == 0 && ((p & !2u8) & !0x80u8) & 2 == 0 && ((p & !2u8)
            & !0x80u8) & 0x7d == p & 0x7d) by (bit_vector);
    }
}

/// The carry flag as a number.
pub open spec fn carry(p: u8) -> int {
    if has_flag(p, CARRY) {
        1
    } else {
        0
    }
}

/// The stack slot for stack pointer `s`.
pub open spec fn stack_addr(s: u8) -> u16 {
    (0x100 + s) as u16
}

/// The word at `a` and `a + 1`.
pub open spec fn abs_word(bus: Bus, a: u16) -> u16 {
    (bus.value_at(a) + 256 * bus.value_at(wrap16(a + 1))) as u16
}

/// The operand that `mode` resolves to for an opcode at `reg.PC`.
pub open spec fn operand_spec(bus: Bus, reg: Register, mode: AddressingMode) -> Operand {
    let pc1 = wrap16(reg.PC + 1);
    let b = bus.value_at(pc1);
    match mode {
        AddressingMode::Implied => Operand::Implied,
        AddressingMode::Accumulator => Operand::Accumulator,
        AddressingMode::Immediate => Operand::Immediate(b),
        AddressingMode::ZeroPage => Operand::Memory(b as u16),
        AddressingMode::ZeroPageX => Operand::Memory(wrap8(b + reg.X) as u16),
        AddressingMode::ZeroPageY => Operand::Memory(wrap8(b + reg.Y) as u16),
        AddressingMode::Absolute => Operand::Memory(abs_word(bus, pc1)),
        AddressingMode::AbsoluteX => Operand::Memory(wrap16(abs_word(bus, pc1) + reg.X)),
        AddressingMode::AbsoluteY => Operand::Memory(wrap16(abs_word(bus, pc1) + reg.Y)),
        AddressingMode::Indirect => Operand::Memory(bus.value_w(abs_word(bus, pc1))),
        AddressingMode::IndirectX => Operand::Memory(bus.value_w(wrap8(b + reg.X) as u16)),
        AddressingMode::IndirectY => Operand::Memory(wrap16(bus.value_w(b as u16) + reg.Y)),
        AddressingMode::Relative => Operand::Memory(wrap16(reg.PC + 2 + sign_extend(b))),
    }
}

/// The value an instruction reads from its operand.
pub open spec fn operand_value(r: Register, bus: Bus, op: Operand) -> u8 {
    match op {
        Operand::Immediate(v) => v,
        Operand::Accumulator => r.A,
        Operand::Memory(a) => bus.value_at(a),
        Operand::Implied => 0,
    }
}

/// The bus after an instruction reads its operand.
pub open spec fn bus_after_read(bus: Bus, op: Operand) -> Bus {
    match op {
        Operand::Memory(a) => bus.after_load(a),
        _ => bus,
    }
}

/// The address of a memory operand.
pub open spec fn target_of(op: Operand) -> u16 {
    match op {
        Operand::Memory(a) => a,
        _ => 0,
    }
}

/// `post_reg` and `post_bus` are `r` and `bus` after `v` is written to the
/// operand: the accumulator, or memory.
pub open spec fn write_post(
    r: Register,
    bus: Bus,
    op: Operand,
    v: u8,
    post_reg: Register,
    post_bus: Bus,
) -> bool {
    match op {
        Operand::Accumulator => post_reg == Register { A: v, ..r } && post_bus == bus,
        Operand::Memory(a) => post_reg == r && bus.store_post(post_bus, a, v),
        _ => post_reg == r && post_bus == bus,
    }
}

pub open spec fn with_p(r: Register, p: u8) -> Register {
    Register { P: StatusRegister(p), ..r }
}

/// Loads and stores.
pub open spec fn load_store_post(
    r: Register,
    bus: Bus,
    opcode: Opcode,
    op: Operand,
    post_reg: Register,
    post_bus: Bus,
) -> bool {
    let m = operand_value(r, bus, op);
    match opcode {
        Opcode::LDA => post_bus == bus_after_read(bus, op) && post_reg == Register {
            A: m,
            P: StatusRegister(zn(r.P.0, m)),
            ..r
        },
        Opcode::LDX => post_bus == bus_after_read(bus, op) && post_reg == Register {
            X: m,
            P: StatusRegister(zn(r.P.0, m)),
            ..r
        },
        Opcode::LDY => post_bus == bus_after_read(bus, op) && post_reg == Register {
            Y: m,
            P: StatusRegister(zn(r.P.0, m)),
            ..r
        },
        Opcode::STA => write_post(r, bus, op, r.A, post_reg, post_bus),
        Opcode::STX => write_post(r, bus, op, r.X, post_reg, post_bus),
        _ => write_post(r, bus, op, r.Y, post_reg, post_bus),
    }
}

/// Register transfers, flag operations and NOP.
pub open spec fn register_post(r: Register, opcode: Opcode, post_reg: Register) -> bool {
    match opcode {
        Opcode::TAX => post_reg == Register { X: r.A, P: StatusRegister(zn(r.P.0, r.A)), ..r },
        Opcode::TAY => post_reg == Register { Y: r.A, P: StatusRegister(zn(r.P.0, r.A)), ..r },
        Opcode::TSX => post_reg == Register { X: r.S, P: StatusRegister(zn(r.P.0, r.S)), ..r },
        Opcode::TXA => post_reg == Register { A: r.X, P: StatusRegister(zn(r.P.0, r.X)), ..r },
        Opcode::TXS => post_reg == Register { S: r.X, ..r },
        Opcode::TYA => post_reg == Register { A: r.Y, P: StatusRegister(zn(r.P.0, r.Y)), ..r },
        Opcode::CLC => post_reg == with_p(r, with_flag(r.P.0, CARRY, false)),
        Opcode::CLD => post_reg == with_p(r, with_flag(r.P.0, DECIMAL, false)),
        Opcode::CLI => post_reg == with_p(r, with_flag(r.P.0, INTERRUPT, false)),
        Opcode::CLV => post_reg == with_p(r, with_flag(r.P.0, OVERFLOW, false)),
        Opcode::SEC => post_reg == with_p(r, with_flag(r.P.0, CARRY, true)),
        Opcode::SED => post_reg == with_p(r, with_flag(r.P.0, DECIMAL, true)),
        Opcode::SEI => post_reg == with_p(r, with_flag(r.P.0, INTERRUPT, true)),
        _ => post_reg == r,
    }
}

/// PHA, PHP, PLA, PLP: a push writes at the stack pointer and moves it down;
/// a pull moves it up and reads there. PHP pushes P with B set; PLP ignores B.
pub open spec fn stack_post(
    r: Register,
    bus: Bus,
    opcode: Opcode,
    post_reg: Register,
    post_bus: Bus,
) -> bool {
    let up = wrap8(r.S + 1);
    let down = wrap8(r.S - 1);
    let pulled = bus.value_at(stack_addr(up));
    match opcode {
        Opcode::PHA => bus.store_post(post_bus, stack_addr(r.S), r.A) && post_reg == Register {
            S: down,
            ..r
        },
        Opcode::PHP => bus.store_post(post_bus, stack_addr(r.S), with_flag(r.P.0, BREAK, true))
            && post_reg == Register { S: down, ..r },
        Opcode::PLA => post_bus == bus && post_reg == Register {
            A: pulled,
            S: up,
            P: StatusRegister(zn(r.P.0, pulled)),
            ..r
        },
        _ => post_bus == bus && post_reg == Register {
            S: up,
            P: StatusRegister(with_flag(pulled | 0x20, BREAK, false)),
            ..r
        },
    }
}

/// The flags after comparing register value `x` with `m`.
pub open spec fn compare_flags(p: u8, x: u8, m: u8) -> u8 {
    with_flag(with_flag(with_flag(p, CARRY, x >= m), ZERO, x == m), NEGATIVE, neg(wrap8(x - m)))
}

/// Logic, arithmetic and compares on the accumulator or an index register.
pub open spec fn alu_post(
    r: Register,
    bus: Bus,
    opcode: Opcode,
    op: Operand,
    post_reg: Register,
    post_bus: Bus,
) -> bool {
    let m = operand_value(r, bus, op);
    &&& post_bus == bus_after_read(bus, op)
    &&& match opcode {
        Opcode::AND => post_reg == Register { A: r.A & m, P: StatusRegister(zn(r.P.0, r.A & m)), ..r },
        Opcode::EOR => post_reg == Register { A: r.A ^ m, P: StatusRegister(zn(r.P.0, r.A ^ m)), ..r },
        Opcode::ORA => post_reg == Register { A: r.A | m, P: StatusRegister(zn(r.P.0, r.A | m)), ..r },
        Opcode::BIT => post_reg == with_p(
            r,
            with_flag(
                with_flag(with_flag(r.P.0, ZERO, r.A & m == 0), OVERFLOW, m & 0x40 != 0),
                NEGATIVE,
                m & 0x80 != 0,
            ),
        ),
        Opcode::ADC => {
            let sum = r.A + m + carry(r.P.0);
            let v = wrap8(sum);
            post_reg == Register {
                A: v,
                P: StatusRegister(
                    with_flag(
                        with_flag(zn(r.P.0, v), CARRY, sum > 255),
                        OVERFLOW,
                        neg(r.A) == neg(m) && neg(v) != neg(r.A),
                    ),
                ),
                ..r
            }
        },
        Opcode::SBC => {
            let diff = r.A - m - (1 - carry(r.P.0));
            let v = wrap8(diff);
            post_reg == Register {
                A: v,
                P: StatusRegister(
                    with_flag(
                        with_flag(zn(r.P.0, v), CARRY, diff >= 0),
                        OVERFLOW,
                        neg(r.A) != neg(m) && neg(v) != neg(r.A),
                    ),
                ),
                ..r
            }
        },
        Opcode::CMP => post_reg == with_p(r, compare_flags(r.P.0, r.A, m)),
        Opcode::CPX => post_reg == with_p(r, compare_flags(r.P.0, r.X, m)),
        _ => post_reg == with_p(r, compare_flags(r.P.0, r.Y, m)),
    }
}

/// Increments and decrements, wrapping.
pub open spec fn incdec_post(
    r: Register,
    bus: Bus,
    opcode: Opcode,
    op: Operand,
    post_reg: Register,
    post_bus: Bus,
) -> bool {
    let m = operand_value(r, bus, op);
    match opcode {
        Opcode::INC => write_post(
            with_p(r, zn(r.P.0, wrap8(m + 1))),
            bus_after_read(bus, op),
            op,
            wrap8(m + 1),
            post_reg,
            post_bus,
        ),
        Opcode::DEC => write_post(
            with_p(r, zn(r.P.0, wrap8(m - 1))),
            bus_after_read(bus, op),
            op,
            wrap8(m - 1),
            post_reg,
            post_bus,
        ),
        Opcode::INX => post_bus == bus && post_reg == Register {
            X: wrap8(r.X + 1),
            P: StatusRegister(zn(r.P.0, wrap8(r.X + 1))),
            ..r
        },
        Opcode::INY => post_bus == bus && post_reg == Register {
            Y: wrap8(r.Y + 1),
            P: StatusRegister(zn(r.P.0, wrap8(r.Y + 1))),
            ..r
        },
        Opcode::DEX => post_bus == bus && post_reg == Register {
            X: wrap8(r.X - 1),
            P: StatusRegister(zn(r.P.0, wrap8(r.X - 1))),
            ..r
        },
        _ => post_bus == bus && post_reg == Register {
            Y: wrap8(r.Y - 1),
            P: StatusRegister(zn(r.P.0, wrap8(r.Y - 1))),
            ..r
        },
    }
}

/// The result of a shift or rotate of `m`, and the bit shifted out.
pub open spec fn shift_result(opcode: Opcode, m: u8, c: int) -> (u8, bool) {
    match opcode {
        Opcode::ASL => (wrap8(m * 2), m >= 0x80),
        Opcode::LSR => ((m / 2) as u8, m % 2 == 1),
        Opcode::ROL => (wrap8(m * 2 + c), m >= 0x80),
        _ => ((m / 2 + 128 * c) as u8, m % 2 == 1),
    }
}

/// ASL, LSR, ROL, ROR on the accumulator or memory.
pub open spec fn shift_post(
    r: Register,
    bus: Bus,
    opcode: Opcode,
    op: Operand,
    post_reg: Register,
    post_bus: Bus,
) -> bool {
    let m = operand_value(r, bus, op);
    let (v, out) = shift_result(opcode, m, carry(r.P.0));
    write_post(
        with_p(r, with_flag(zn(r.P.0, v), CARRY, out)),
        bus_after_read(bus, op),
        op,
        v,
        post_reg,
        post_bus,
    )
}

/// Whether a branch opcode is taken under flags `p`.
pub open spec fn branch_taken(opcode: Opcode, p: u8) -> bool {
    match opcode {
        Opcode::BCC => !has_flag(p, CARRY),
        Opcode::BCS => has_flag(p, CARRY),
        Opcode::BEQ => has_flag(p, ZERO),
        Opcode::BNE => !has_flag(p, ZERO),
        Opcode::BMI => has_flag(p, NEGATIVE),
        Opcode::BPL => !has_flag(p, NEGATIVE),
        Opcode::BVC => !has_flag(p, OVERFLOW),
        Opcode::BVS => has_flag(p, OVERFLOW),
        _ => false,
    }
}

/// Work RAM after pushing `hi`, then `lo`, from stack pointer `s`.
pub open spec fn pushed(cells: Seq<u8>, s: u8, hi: u8, lo: u8) -> Seq<u8> {
    cells.update(stack_addr(s) as int, hi).update(stack_addr(wrap8(s - 1)) as int, lo)
}

/// Jumps, calls, returns, BRK and the branches.
pub open spec fn control_post(
    r: Register,
    bus: Bus,
    opcode: Opcode,
    op: Operand,
    post_reg: Register,
    post_bus: Bus,
) -> bool {
    let p1 = bus.value_at(stack_addr(wrap8(r.S + 1)));
    let p2 = bus.value_at(stack_addr(wrap8(r.S + 2)));
    let p3 = bus.value_at(stack_addr(wrap8(r.S + 3)));
    match opcode {
        Opcode::JMP => post_bus == bus && post_reg == Register { PC: target_of(op), ..r },
        Opcode::JSR => {
            let ret = wrap16(r.PC - 1);
            &&& bus.wram_now(post_bus, pushed(bus.wram.cells@, r.S, (ret / 256) as u8, (ret % 256) as u8))
            &&& post_reg == Register { S: wrap8(r.S - 2), PC: target_of(op), ..r }
        },
        Opcode::RTS => post_bus == bus && post_reg == Register {
            S: wrap8(r.S + 2),
            PC: wrap16(p1 + 256 * p2 + 1),
            ..r
        },
        Opcode::RTI => post_bus == bus && post_reg == Register {
            S: wrap8(r.S + 3),
            P: StatusRegister(with_flag(p1 | 0x20, BREAK, false)),
            PC: (p2 + 256 * p3) as u16,
            ..r
        },
        Opcode::BRK => {
            let ret = wrap16(r.PC + 1);
            &&& bus.wram_now(
                post_bus,
                pushed(bus.wram.cells@, r.S, (ret / 256) as u8, (ret % 256) as u8).update(
                    stack_addr(wrap8(r.S - 2)) as int,
                    with_flag(r.P.0, BREAK, true),
                ),
            )
            &&& post_reg == Register {
                S: wrap8(r.S - 3),
                P: StatusRegister(with_flag(r.P.0, INTERRUPT, true)),
                PC: abs_word(bus, 0xfffe),
                ..r
            }
        },
        _ => post_bus == bus && post_reg == if branch_taken(opcode, r.P.0) {
            Register { PC: target_of(op), ..r }
        } else {
            r
        },
    }
}

/// `post_reg` and `post_bus` are `r` and `bus` after `opcode` runs on `op`
/// (`r.PC` already points past the instruction).
#[verifier::opaque]
pub open spec fn execute_post(
    r: Register,
    bus: Bus,
    opcode: Opcode,
    op: Operand,
    post_reg: Register,
    post_bus: Bus,
) -> bool {
    match opcode {
        Opcode::LDA | Opcode::LDX | Opcode::LDY | Opcode::STA | Opcode::STX | Opcode::STY => load_store_post(
            r,
            bus,
            opcode,
            op,
            post_reg,
            post_bus,
        ),
        Opcode::TAX | Opcode::TAY | Opcode::TSX | Opcode::TXA | Opcode::TXS | Opcode::TYA
        | Opcode::CLC | Opcode::CLD | Opcode::CLI | Opcode::CLV | Opcode::SEC | Opcode::SED
        | Opcode::SEI | Opcode::NOP => register_post(r, opcode, post_reg) && post_bus == bus,
        Opcode::PHA | Opcode::PHP | Opcode::PLA | Opcode::PLP => stack_post(r, bus, opcode, post_reg, post_bus),
        Opcode::AND | Opcode::EOR | Opcode::ORA | Opcode::BIT | Opcode::ADC | Opcode::SBC
        | Opcode::CMP | Opcode::CPX | Opcode::CPY => alu_post(r, bus, opcode, op, post_reg, post_bus),
        Opcode::INC | Opcode::DEC | Opcode::INX | Opcode::INY | Opcode::DEX | Opcode::DEY => incdec_post(
            r,
            bus,
            opcode,
            op,
            post_reg,
            post_bus,
        ),
        Opcode::ASL | Opcode::LSR | Opcode::ROL | Opcode::ROR => shift_post(r, bus, opcode, op, post_reg, post_bus),
        _ => control_post(r, bus, opcode, op, post_reg, post_bus),
    }
}

/// The program counter just past an instruction of `mode` at `pc`.
pub open spec fn pc_after(pc: u16, mode: AddressingMode) -> u16 {
    wrap16(pc + 1 + operand_bytes_spec(mode))
}

/// Addresses 0x4020..0x7FFF: no device answers there.
pub open spec fn unmapped(a: u16) -> bool {
    0x4020 <= a <= 0x7fff
}

/// The first unmapped address among the operand bytes of `inst` at `reg.PC`
/// and, for an indirect jump, the two bytes of its pointer.
pub open spec fn fetch_fault(bus: Bus, reg: Register, inst: Instruction) -> Option<u16> {
    let n = operand_bytes_spec(inst.mode);
    let pc1 = wrap16(reg.PC + 1);
    let pc2 = wrap16(reg.PC + 2);
    let ptr = abs_word(bus, pc1);
    if n >= 1 && unmapped(pc1) {
        Some(pc1)
    } else if n == 2 && unmapped(pc2) {
        Some(pc2)
    } else if inst.mode == AddressingMode::Indirect && unmapped(ptr) {
        Some(ptr)
    } else if inst.mode == AddressingMode::Indirect && unmapped(next_in_page(ptr)) {
        Some(next_in_page(ptr))
    } else {
        None
    }
}

/// Why the instruction at `reg.PC` cannot run, if it cannot: its opcode lies
/// where no device answers, it is undocumented, or an operand byte or
/// pointer lies where no device answers.
pub open spec fn fetch_error(reg: Register, bus: Bus) -> Option<CpuError> {
    if unmapped(reg.PC) {
        Some(CpuError::UnmappedFetch { addr: reg.PC })
    } else {
        match instruction_table(bus.value_at(reg.PC)) {
            None => Some(CpuError::UnknownOpcode { code: bus.value_at(reg.PC), pc: reg.PC }),
            Some(inst) => match fetch_fault(bus, reg, inst) {
                Some(a) => Some(CpuError::UnmappedFetch { addr: a }),
                None => None,
            },
        }
    }
}

/// The bus after a failed fetch: an unmapped fetch is recorded as a fault.
pub open spec fn bus_after_fetch_error(bus: Bus, e: CpuError) -> Bus {
    match e {
        CpuError::UnmappedFetch { addr } => Bus { fault: Some(BusFault::UnmappedLoad(addr)), ..bus },
        _ => bus,
    }
}

/// One whole instruction `inst`, fetched at `reg.PC`.
pub open spec fn step_post(reg: Register, bus: Bus, inst: Instruction, post_reg: Register, post_bus: Bus) -> bool {
    execute_post(
        Register { PC: pc_after(reg.PC, inst.mode), ..reg },
        bus,
        inst.opcode,
        operand_spec(bus, reg, inst.mode),
        post_reg,
        post_bus,
    )
}

/// The NMI sequence: push PC (high byte first) and P with B clear, set I, and
/// jump through the vector at 0xFFFA.
pub open spec fn nmi_post(r: Register, bus: Bus, post_reg: Register, post_bus: Bus) -> bool {
    &&& bus.wram_now(
        post_bus,
        pushed(bus.wram.cells@, r.S, (r.PC / 256) as u8, (r.PC % 256) as u8).update(
            stack_addr(wrap8(r.S - 2)) as int,
            with_flag(r.P.0, BREAK, false),
        ),
    )
    &&& post_reg == Register {
        S: wrap8(r.S - 3),
        P: StatusRegister(with_flag(r.P.0, INTERRUPT, true)),
        PC: abs_word(bus, 0xfffa),
        ..r
    }
}

proof fn lemma_wrap8_step(s: u8, k: int)
    requires
        0 <= k <= 3,
    ensures
        wrap8(wrap8(s + k) + 1) == wrap8(s + k + 1),
        wrap8(wrap8(s - k) - 1) == wrap8(s - k - 1),
{
    assert(((s + k) % 256 + 1) % 256 == (s + k + 1) % 256) by (nonlinear_arith)
        requires
            0 <= s < 256,
            0 <= k <= 3,
    ;
    assert(((s - k) % 256 - 1) % 256 == (s - k - 1) % 256) by (nonlinear_arith)
        requires
            0 <= s < 256,
            0 <= k <= 3,
    ;
}

/// The processor.
pub struct Cpu {
    pub reg: Register,
}

impl Cpu {
    /// Bit 5 of P reads as one.
    pub open spec fn wf(&self) -> bool {
        self.reg.P.wf()
    }

    /// A processor with the power-up register file.
    pub fn new() -> (r: Cpu)
        ensures
            r.wf(),
            r.reg.A == 0 && r.reg.X == 0 && r.reg.Y == 0,
            r.reg.S == 0xfd && r.reg.P.0 == 0x24 && r.reg.PC == 0xc000,
    {
        Cpu { reg: Register::new() }
    }

    /// Power-up register file, with PC from the reset vector at 0xFFFC.
    pub fn reset(&mut self, bus: &mut Bus)
        requires
            old(bus).wf(),
        ensures
            final(self).wf(),
            *final(bus) == *old(bus),
            final(self).reg.A == 0 && final(self).reg.X == 0 && final(self).reg.Y == 0,
            final(self).reg.S == 0xfd && final(self).reg.P.0 == 0x24,
            final(self).reg.PC == abs_word(*old(bus), 0xfffc),
    {
        self.reg = Register::new();
        self.reg.PC = read_abs(bus, 0xfffc);
    }

    fn set_zero_and_negative_flags(&mut self, val: u8)
        requires
            old(self).wf(),
        ensures
            final(self).wf(),
            final(self).reg == with_p(old(self).reg, zn(old(self).reg.P.0, val)),
    {
        self.reg.P.set_zero_flag(val == 0);
        self.reg.P.set_negative_flag(val >= 0x80);
    }

    fn push_stack(&mut self, bus: &mut Bus, val: u8)
        requires
            old(bus).wf(),
        ensures
            old(bus).keeps_clock_and_keys(*final(bus)),
            final(bus).wf(),
            old(bus).wram_now(*final(bus), old(bus).wram.cells@.update(stack_addr(old(self).reg.S) as int, val)),
            final(self).reg == (Register { S: wrap8(old(self).reg.S - 1), ..old(self).reg }),
    {
        reveal(Bus::store_post);
        bus.store(0x100 + self.reg.S as u16, val);
        self.reg.S = self.reg.S.wrapping_sub(1);
    }

    fn push_stack_w(&mut self, bus: &mut Bus, val: u16)
        requires
            old(bus).wf(),
        ensures
            old(bus).keeps_clock_and_keys(*final(bus)),
            final(bus).wf(),
            old(bus).wram_now(
                *final(bus),
                pushed(old(bus).wram.cells@, old(self).reg.S, (val / 256) as u8, (val % 256) as u8),
            ),
            final(self).reg == (Register { S: wrap8(old(self).reg.S - 2), ..old(self).reg }),
    {
        self.push_stack(bus, (val / 256) as u8);
        self.push_stack(bus, (val % 256) as u8);
    }

    fn pop_stack(&mut self, bus: &mut Bus) -> (r: u8)
        requires
            old(bus).wf(),
        ensures
            *final(bus) == *old(bus),
            r == old(bus).value_at(stack_addr(wrap8(old(self).reg.S + 1))),
            final(self).reg == (Register { S: wrap8(old(self).reg.S + 1), ..old(self).reg }),
    {
        self.reg.S = self.reg.S.wrapping_add(1);
        bus.load(0x100 + self.reg.S as u16)
    }

    fn load_operand(&mut self, bus: &mut Bus, op: Operand) -> (r: u8)
        requires
            old(bus).wf(),
        ensures
            old(bus).keeps_clock_and_keys(*final(bus)),
            final(bus).wf(),
            r == operand_value(old(self).reg, *old(bus), op),
            *final(bus) == bus_after_read(*old(bus), op),
            *final(self) == *old(self),
    {
        match op {
            Operand::Implied => 0,
            Operand::Immediate(val) => val,
            Operand::Accumulator => self.reg.A,
            Operand::Memory(addr) => bus.load(addr),
        }
    }

    fn write_operand(&mut self, bus: &mut Bus, op: Operand, val: u8)
        requires
            old(bus).wf(),
        ensures
            old(bus).keeps_clock_and_keys(*final(bus)),
            final(bus).wf(),
            write_post(old(self).reg, *old(bus), op, val, final(self).reg, *final(bus)),
    {
        match op {
            Operand::Accumulator => {
                self.reg.A = val;
            },
            Operand::Memory(addr) => {
                bus.store(addr, val);
            },
            _ => {},
        }
    }

    /// Resolves the operand of an instruction at PC. Operand bytes and
    /// indirect pointers are read as `peek` reads them, without the side
    /// effects that a read of a PPU register or the controller has.
    fn fetch_operand(&self, bus: &Bus, mode: AddressingMode) -> (r: Operand)
        requires
            bus.wf(),
        ensures
            r == operand_spec(*bus, self.reg, mode),
    {
        let addr = self.reg.PC.wrapping_add(1);
        let b = bus.peek(addr);
        match mode {
            AddressingMode::Implied => Operand::Implied,
            AddressingMode::Accumulator => Operand::Accumulator,
            AddressingMode::Immediate => Operand::Immediate(b),
            AddressingMode::ZeroPage => Operand::Memory(b as u16),
            AddressingMode::ZeroPageX => Operand::Memory(b.wrapping_add(self.reg.X) as u16),
            AddressingMode::ZeroPageY => Operand::Memory(b.wrapping_add(self.reg.Y) as u16),
            AddressingMode::Absolute => Operand::Memory(read_abs(bus, addr)),
            AddressingMode::AbsoluteX => Operand::Memory(read_abs(bus, addr).wrapping_add(self.reg.X as u16)),
            AddressingMode::AbsoluteY => Operand::Memory(read_abs(bus, addr).wrapping_add(self.reg.Y as u16)),
            AddressingMode::Indirect => Operand::Memory(bus.peek_w(read_abs(bus, addr))),
            AddressingMode::IndirectX => Operand::Memory(bus.peek_w(b.wrapping_add(self.reg.X) as u16)),
            AddressingMode::IndirectY => Operand::Memory(bus.peek_w(b as u16).wrapping_add(self.reg.Y as u16)),
            AddressingMode::Relative => Operand::Memory(relative_target(self.reg.PC, b)),
        }
    }

    #[verifier::rlimit(50)]
    fn exec_load_store(&mut self, bus: &mut Bus, opcode: Opcode, op: Operand)
        requires
            old(self).wf(),
            old(bus).wf(),
        ensures
            old(bus).keeps_clock_and_keys(*final(bus)),
            final(self).wf(),
            final(bus).wf(),
            load_store_post(old(self).reg, *old(bus), opcode, op, final(self).reg, *final(bus)),
    {
        match opcode {
            Opcode::LDA => {
                let val = self.load_operand(bus, op);
                self.reg.A = val;
                self.set_zero_and_negative_flags(val);
            },
            Opcode::LDX => {
                let val = self.load_operand(bus, op);
                self.reg.X = val;
                self.set_zero_and_negative_flags(val);
            },
            Opcode::LDY => {
                let val = self.load_operand(bus, op);
                self.reg.Y = val;
                self.set_zero_and_negative_flags(val);
            },
            Opcode::STA => {
                let a = self.reg.A;
                self.write_operand(bus, op, a);
            },
            Opcode::STX => {
                let x = self.reg.X;
                self.write_operand(bus, op, x);
            },
            _ => {
                let y = self.reg.Y;
                self.write_operand(bus, op, y);
            },
        }
    }

    fn exec_register(&mut self, opcode: Opcode)
        requires
            old(self).wf(),
        ensures
            final(self).wf(),
            register_post(old(self).reg, opcode, final(self).reg),
    {
        match opcode {
            Opcode::TAX => {
                let val = self.reg.A;
                self.reg.X = val;
                self.set_zero_and_negative_flags(val);
            },
            Opcode::TAY => {
                let val = self.reg.A;
                self.reg.Y = val;
                self.set_zero_and_negative_flags(val);
            },
            Opcode::TSX => {
                let val = self.reg.S;
                self.reg.X = val;
                self.set_zero_and_negative_flags(val);
            },
            Opcode::TXA => {
                let val = self.reg.X;
                self.reg.A = val;
                self.set_zero_and_negative_flags(val);
            },
            Opcode::TXS => {
                self.reg.S = self.reg.X;
            },
            Opcode::TYA => {
                let val = self.reg.Y;
                self.reg.A = val;
                self.set_zero_and_negative_flags(val);
            },
            Opcode::CLC => self.reg.P.set_carry_flag(false),
            Opcode::CLD => self.reg.P.set_decimal_mode(false),
            Opcode::CLI => self.reg.P.set_interrupt_disable_flag(false),
            Opcode::CLV => self.reg.P.set_overflow_flag(false),
            Opcode::SEC => self.reg.P.set_carry_flag(true),
            Opcode::SED => self.reg.P.set_decimal_mode(true),
            Opcode::SEI => self.reg.P.set_interrupt_disable_flag(true),
            _ => {},
        }
    }

    #[verifier::rlimit(50)]
    fn exec_stack(&mut self, bus: &mut Bus, opcode: Opcode)
        requires
            old(self).wf(),
            old(bus).wf(),
        ensures
            old(bus).keeps_clock_and_keys(*final(bus)),
            final(self).wf(),
            final(bus).wf(),
            stack_post(old(self).reg, *old(bus), opcode, final(self).reg, *final(bus)),
    {
        reveal(Bus::store_post);
        match opcode {
            Opcode::PHA => {
                let val = self.reg.A;
                self.push_stack(bus, val);
            },
            Opcode::PHP => {
                let mut p = self.reg.P;
                p.set_break_command(true);
                self.push_stack(bus, p.to_u8());
            },
            Opcode::PLA => {
                let val = self.pop_stack(bus);
                self.reg.A = val;
                self.set_zero_and_negative_flags(val);
            },
            _ => {
                let val = self.pop_stack(bus);
                self.reg.P.set_u8(val);
                self.reg.P.set_break_command(false);
            },
        }
    }

    fn compare(&mut self, x: u8, m: u8)
        requires
            old(self).wf(),
        ensures
            final(self).wf(),
            final(self).reg == with_p(old(self).reg, compare_flags(old(self).reg.P.0, x, m)),
    {
        self.reg.P.set_carry_flag(x >= m);
        self.reg.P.set_zero_flag(x == m);
        self.reg.P.set_negative_flag(x.wrapping_sub(m) >= 0x80);
    }

    #[verifier::rlimit(50)]
    fn exec_logic(&mut self, bus: &mut Bus, opcode: Opcode, op: Operand)
        requires
            old(self).wf(),
            old(bus).wf(),
            opcode is AND || opcode is EOR || opcode is ORA || opcode is BIT,
        ensures
            old(bus).keeps_clock_and_keys(*final(bus)),
            final(self).wf(),
            final(bus).wf(),
            alu_post(old(self).reg, *old(bus), opcode, op, final(self).reg, *final(bus)),
    {
        let a = self.reg.A;
        let m = self.load_operand(bus, op);
        match opcode {
            Opcode::AND => {
                self.reg.A = a & m;
                self.set_zero_and_negative_flags(a & m);
            },
            Opcode::EOR => {
                self.reg.A = a ^ m;
                self.set_zero_and_negative_flags(a ^ m);
            },
            Opcode::ORA => {
                self.reg.A = a | m;
                self.set_zero_and_negative_flags(a | m);
            },
            _ => {
                self.reg.P.set_zero_flag(a & m == 0);
                self.reg.P.set_overflow_flag((m & 0x40) != 0);
                self.reg.P.set_negative_flag((m & 0x80) != 0);
            },
        }
    }

    #[verifier::rlimit(50)]
    fn exec_adc(&mut self, bus: &mut Bus, op: Operand)
        requires
            old(self).wf(),
            old(bus).wf(),
        ensures
            old(bus).keeps_clock_and_keys(*final(bus)),
            final(self).wf(),
            final(bus).wf(),
            alu_post(old(self).reg, *old(bus), Opcode::ADC, op, final(self).reg, *final(bus)),
    {
        let a = self.reg.A;
        let m = self.load_operand(bus, op);
        let c: u16 = if self.reg.P.carry_flag() {
            1
        } else {
            0
        };
        let sum: u16 = a as u16 + m as u16 + c;
        let v = (sum % 256) as u8;
        self.reg.A = v;
        self.set_zero_and_negative_flags(v);
        self.reg.P.set_carry_flag(sum > 255);
        self.reg.P.set_overflow_flag((a >= 0x80) == (m >= 0x80) && (v >= 0x80) != (a >= 0x80));
    }

    #[verifier::rlimit(50)]
    fn exec_sbc(&mut self, bus: &mut Bus, op: Operand)
        requires
            old(self).wf(),
            old(bus).wf(),
        ensures
            old(bus).keeps_clock_and_keys(*final(bus)),
            final(self).wf(),
            final(bus).wf(),
            alu_post(old(self).reg, *old(bus), Opcode::SBC, op, final(self).reg, *final(bus)),
    {
        let a = self.reg.A;
        let m = self.load_operand(bus, op);
        let c: i16 = if self.reg.P.carry_flag() {
            1
        } else {
            0
        };
        let diff: i16 = a as i16 - m as i16 - (1 - c);
        let v = ((diff + 256) % 256) as u8;
        self.reg.A = v;
        self.set_zero_and_negative_flags(v);
        self.reg.P.set_carry_flag(diff >= 0);
        self.reg.P.set_overflow_flag((a >= 0x80) != (m >= 0x80) && (v >= 0x80) != (a >= 0x80));
    }

    #[verifier::rlimit(50)]
    fn exec_compare(&mut self, bus: &mut Bus, opcode: Opcode, op: Operand)
        requires
            old(self).wf(),
            old(bus).wf(),
            opcode is CMP || opcode is CPX || opcode is CPY,
        ensures
            old(bus).keeps_clock_and_keys(*final(bus)),
            final(self).wf(),
            final(bus).wf(),
            alu_post(old(self).reg, *old(bus), opcode, op, final(self).reg, *final(bus)),
    {
        let m = self.load_operand(bus, op);
        let x = match opcode {
            Opcode::CMP => self.reg.A,
            Opcode::CPX => self.reg.X,
            _ => self.reg.Y,
        };
        self.compare(x, m);
    }

    fn exec_alu(&mut self, bus: &mut Bus, opcode: Opcode, op: Operand)
        requires
            old(self).wf(),
            old(bus).wf(),
        ensures
            old(bus).keeps_clock_and_keys(*final(bus)),
            final(self).wf(),
            final(bus).wf(),
            alu_post(old(self).reg, *old(bus), opcode, op, final(self).reg, *final(bus)),
    {
        match opcode {
            Opcode::AND | Opcode::EOR | Opcode::ORA | Opcode::BIT => self.exec_logic(bus, opcode, op),
            Opcode::ADC => self.exec_adc(bus, op),
            Opcode::SBC => self.exec_sbc(bus, op),
            Opcode::CMP | Opcode::CPX | Opcode::CPY => self.exec_compare(bus, opcode, op),
            _ => {
                let m = self.load_operand(bus, op);
                let y = self.reg.Y;
                self.compare(y, m);
            },
        }
    }

    #[verifier::rlimit(50)]
    fn exec_incdec(&mut self, bus: &mut Bus, opcode: Opcode, op: Operand)
        requires
            old(self).wf(),
            old(bus).wf(),
        ensures
            old(bus).keeps_clock_and_keys(*final(bus)),
            final(self).wf(),
            final(bus).wf(),
            incdec_post(old(self).reg, *old(bus), opcode, op, final(self).reg, *final(bus)),
    {
        match opcode {
            Opcode::INC => {
                let val = self.load_operand(bus, op).wrapping_add(1);
                self.set_zero_and_negative_flags(val);
                self.write_operand(bus, op, val);
            },
            Opcode::DEC => {
                let val = self.load_operand(bus, op).wrapping_sub(1);
                self.set_zero_and_negative_flags(val);
                self.write_operand(bus, op, val);
            },
            Opcode::INX => {
                let val = self.reg.X.wrapping_add(1);
                self.reg.X = val;
                self.set_zero_and_negative_flags(val);
            },
            Opcode::INY => {
                let val = self.reg.Y.wrapping_add(1);
                self.reg.Y = val;
                self.set_zero_and_negative_flags(val);
            },
            Opcode::DEX => {
                let val = self.reg.X.wrapping_sub(1);
                self.reg.X = val;
                self.set_zero_and_negative_flags(val);
            },
            _ => {
                let val = self.reg.Y.wrapping_sub(1);
                self.reg.Y = val;
                self.set_zero_and_negative_flags(val);
            },
        }
    }

    #[verifier::rlimit(50)]
    fn exec_shift(&mut self, bus: &mut Bus, opcode: Opcode, op: Operand)
        requires
            old(self).wf(),
            old(bus).wf(),
        ensures
            old(bus).keeps_clock_and_keys(*final(bus)),
            final(self).wf(),
            final(bus).wf(),
            shift_post(old(self).reg, *old(bus), opcode, op, final(self).reg, *final(bus)),
    {
        let c: u8 = if self.reg.P.carry_flag() {
            1
        } else {
            0
        };
        let m = self.load_operand(bus, op);
        let (v, out) = match opcode {
            Opcode::ASL => (((m as u16 * 2) % 256) as u8, m >= 0x80),
            Opcode::LSR => (m / 2, m % 2 == 1),
            Opcode::ROL => (((m as u16 * 2 + c as u16) % 256) as u8, m >= 0x80),
            _ => (m / 2 + 128 * c, m % 2 == 1),
        };
        self.set_zero_and_negative_flags(v);
        self.reg.P.set_carry_flag(out);
        self.write_operand(bus, op, v);
    }

    #[verifier::rlimit(60)]
    fn exec_jsr(&mut self, bus: &mut Bus, op: Operand)
        requires
            old(self).wf(),
            old(bus).wf(),
        ensures
            old(bus).keeps_clock_and_keys(*final(bus)),
            final(self).wf(),
            final(bus).wf(),
            control_post(old(self).reg, *old(bus), Opcode::JSR, op, final(self).reg, *final(bus)),
    {
        let ret = self.reg.PC.wrapping_sub(1);
        self.push_stack_w(bus, ret);
        self.reg.PC = match op {
            Operand::Memory(a) => a,
            _ => 0,
        };
    }

    #[verifier::rlimit(60)]
    fn exec_rts(&mut self, bus: &mut Bus, op: Operand)
        requires
            old(self).wf(),
            old(bus).wf(),
        ensures
            old(bus).keeps_clock_and_keys(*final(bus)),
            final(self).wf(),
            final(bus).wf(),
            control_post(old(self).reg, *old(bus), Opcode::RTS, op, final(self).reg, *final(bus)),
    {
        proof {
            lemma_wrap8_step(self.reg.S, 1);
        }
        let low = self.pop_stack(bus);
        let high = self.pop_stack(bus);
        self.reg.PC = (low as u16 + 256 * high as u16).wrapping_add(1);
    }

    #[verifier::rlimit(60)]
    fn exec_rti(&mut self, bus: &mut Bus, op: Operand)
        requires
            old(self).wf(),
            old(bus).wf(),
        ensures
            old(bus).keeps_clock_and_keys(*final(bus)),
            final(self).wf(),
            final(bus).wf(),
            control_post(old(self).reg, *old(bus), Opcode::RTI, op, final(self).reg, *final(bus)),
    {
        proof {
            lemma_wrap8_step(self.reg.S, 1);
            lemma_wrap8_step(self.reg.S, 2);
        }
        let p = self.pop_stack(bus);
        self.reg.P.set_u8(p);
        self.reg.P.set_break_command(false);
        let low = self.pop_stack(bus);
        let high = self.pop_stack(bus);
        self.reg.PC = low as u16 + 256 * high as u16;
    }

    #[verifier::rlimit(60)]
    fn exec_brk(&mut self, bus: &mut Bus, op: Operand)
        requires
            old(self).wf(),
            old(bus).wf(),
        ensures
            old(bus).keeps_clock_and_keys(*final(bus)),
            final(self).wf(),
            final(bus).wf(),
            control_post(old(self).reg, *old(bus), Opcode::BRK, op, final(self).reg, *final(bus)),
    {
        let ghost pre = *bus;
        let ret = self.reg.PC.wrapping_add(1);
        self.push_stack_w(bus, ret);
        let mut p = self.reg.P;
        p.set_break_command(true);
        self.push_stack(bus, p.to_u8());
        proof {
            lemma_wram_write_keeps_rom(pre, *bus, 0xfffe);
            lemma_wram_write_keeps_rom(pre, *bus, 0xffff);
        }
        self.reg.P.set_interrupt_disable_flag(true);
        self.reg.PC = read_abs(bus, 0xfffe);
    }

    fn exec_branch(&mut self, opcode: Opcode, op: Operand)
        requires
            old(self).wf(),
            !(opcode is JSR || opcode is RTS || opcode is RTI || opcode is BRK),
        ensures
            final(self).wf(),
            forall|bus: Bus| control_post(old(self).reg, bus, opcode, op, final(self).reg, bus),
    {
        let target = match op {
            Operand::Memory(a) => a,
            _ => 0,
        };
        let p = self.reg.P;
        let taken = match opcode {
            Opcode::JMP => true,
            Opcode::BCC => !p.carry_flag(),
            Opcode::BCS => p.carry_flag(),
            Opcode::BEQ => p.zero_flag(),
            Opcode::BNE => !p.zero_flag(),
            Opcode::BMI => p.negative_flag(),
            Opcode::BPL => !p.negative_flag(),
            Opcode::BVC => !p.overflow_flag(),
            Opcode::BVS => p.overflow_flag(),
            _ => false,
        };
        if taken {
            self.reg.PC = target;
        }
    }

    fn exec_control(&mut self, bus: &mut Bus, opcode: Opcode, op: Operand)
        requires
            old(self).wf(),
            old(bus).wf(),
        ensures
            old(bus).keeps_clock_and_keys(*final(bus)),
            final(self).wf(),
            final(bus).wf(),
            control_post(old(self).reg, *old(bus), opcode, op, final(self).reg, *final(bus)),
    {
        match opcode {
            Opcode::JSR => self.exec_jsr(bus, op),
            Opcode::RTS => self.exec_rts(bus, op),
            Opcode::RTI => self.exec_rti(bus, op),
            Opcode::BRK => self.exec_brk(bus, op),
            _ => self.exec_branch(opcode, op),
        }
    }

    fn execute_instruction(&mut self, bus: &mut Bus, opcode: Opcode, op: Operand)
        requires
            old(self).wf(),
            old(bus).wf(),
        ensures
            old(bus).keeps_clock_and_keys(*final(bus)),
            final(self).wf(),
            final(bus).wf(),
            execute_post(old(self).reg, *old(bus), opcode, op, final(self).reg, *final(bus)),
            final(bus).joypad.key_state == old(bus).joypad.key_state,
            final(bus).ppu.scanline == old(bus).ppu.scanline,
            final(bus).ppu.cycles_in_line == old(bus).ppu.cycles_in_line,
    {
        reveal(execute_post);
        match opcode {
            Opcode::LDA | Opcode::LDX | Opcode::LDY | Opcode::STA | Opcode::STX | Opcode::STY => {
                self.exec_load_store(bus, opcode, op)
            },
            Opcode::TAX | Opcode::TAY | Opcode::TSX | Opcode::TXA | Opcode::TXS | Opcode::TYA
            | Opcode::CLC | Opcode::CLD | Opcode::CLI | Opcode::CLV | Opcode::SEC | Opcode::SED
            | Opcode::SEI | Opcode::NOP => self.exec_register(opcode),
            Opcode::PHA | Opcode::PHP | Opcode::PLA | Opcode::PLP => self.exec_stack(bus, opcode),
            Opcode::AND | Opcode::EOR | Opcode::ORA | Opcode::BIT | Opcode::ADC | Opcode::SBC
            | Opcode::CMP | Opcode::CPX | Opcode::CPY => self.exec_alu(bus, opcode, op),
            Opcode::INC | Opcode::DEC | Opcode::INX | Opcode::INY | Opcode::DEX | Opcode::DEY => {
                self.exec_incdec(bus, opcode, op)
            },
            Opcode::ASL | Opcode::LSR | Opcode::ROL | Opcode::ROR => self.exec_shift(bus, opcode, op),
            _ => self.exec_control(bus, opcode, op),
        }
    }

    /// Fetches, decodes and executes one instruction; returns its cycle count.
    /// An undocumented opcode stops the processor with nothing changed.
    pub fn exec(&mut self, bus: &mut Bus) -> (r: Result<u8, CpuError>)
        requires
            old(self).wf(),
            old(bus).wf(),
        ensures
            final(self).wf(),
            final(bus).wf(),
            final(bus).joypad.key_state == old(bus).joypad.key_state,
            final(bus).ppu.scanline == old(bus).ppu.scanline,
            final(bus).ppu.cycles_in_line == old(bus).ppu.cycles_in_line,
            match fetch_error(old(self).reg, *old(bus)) {
                Some(e) => r == Err::<u8, CpuError>(e) && *final(self) == *old(self) && *final(bus)
                    == bus_after_fetch_error(*old(bus), e),
                None => instruction_table(old(bus).value_at(old(self).reg.PC)) matches Some(inst)
                    && r == Ok::<u8, CpuError>(inst.cycles) && step_post(
                    old(self).reg,
                    *old(bus),
                    inst,
                    final(self).reg,
                    *final(bus),
                ),
            },
    {
        let pc = self.reg.PC;
        if 0x4020 <= pc && pc <= 0x7fff {
            bus.fault = Some(BusFault::UnmappedLoad(pc));
            return Err(CpuError::UnmappedFetch { addr: pc });
        }
        let code = bus.peek(pc);
        let inst = match Instruction::from_code(code) {
            Some(inst) => inst,
            None => {
                return Err(CpuError::UnknownOpcode { code, pc });
            },
        };
        match self.unmapped_operand(bus, inst) {
            Some(addr) => {
                bus.fault = Some(BusFault::UnmappedLoad(addr));
                return Err(CpuError::UnmappedFetch { addr });
            },
            None => {},
        }
        let op = self.fetch_operand(bus, inst.mode);
        let bytes = 1 + inst.mode.operand_bytes() as u16;
        self.reg.PC = self.reg.PC.wrapping_add(bytes);
        self.execute_instruction(bus, inst.opcode, op);
        Ok(inst.cycles)
    }

    fn unmapped_operand(&self, bus: &Bus, inst: Instruction) -> (r: Option<u16>)
        requires
            bus.wf(),
        ensures
            r == fetch_fault(*bus, self.reg, inst),
    {
        let n = inst.mode.operand_bytes();
        let pc1 = self.reg.PC.wrapping_add(1);
        let pc2 = self.reg.PC.wrapping_add(2);
        if n >= 1 && 0x4020 <= pc1 && pc1 <= 0x7fff {
            return Some(pc1);
        }
        if n == 2 && 0x4020 <= pc2 && pc2 <= 0x7fff {
            return Some(pc2);
        }
        match inst.mode {
            AddressingMode::Indirect => {
                let ptr = read_abs(bus, pc1);
                let next = if ptr % 256 == 255 {
                    ptr - 255
                } else {
                    ptr + 1
                };
                if 0x4020 <= ptr && ptr <= 0x7fff {
                    Some(ptr)
                } else if 0x4020 <= next && next <= 0x7fff {
                    Some(next)
                } else {
                    None
                }
            },
            _ => None,
        }
    }

    /// Non-maskable interrupt: pushes PC and P (B clear), sets I and jumps
    /// through the vector at 0xFFFA.
    #[verifier::rlimit(60)]
    pub fn nmi(&mut self, bus: &mut Bus)
        requires
            old(self).wf(),
            old(bus).wf(),
        ensures
            final(self).wf(),
            final(bus).wf(),
            nmi_post(old(self).reg, *old(bus), final(self).reg, *final(bus)),
    {
        let ghost pre = *bus;
        let pc = self.reg.PC;
        self.push_stack_w(bus, pc);
        let mut p = self.reg.P;
        p.set_break_command(false);
        self.push_stack(bus, p.to_u8());
        proof {
            lemma_wram_write_keeps_rom(pre, *bus, 0xfffa);
            lemma_wram_write_keeps_rom(pre, *bus, 0xfffb);
        }
        self.reg.P.set_interrupt_disable_flag(true);
        self.reg.PC = read_abs(bus, 0xfffa);
    }
}

/// The target of a branch at `pc` with offset byte `offset`.
fn relative_target(pc: u16, offset: u8) -> (r: u16)
    ensures
        r == wrap16(pc + 2 + sign_extend(offset)),
{
    let base = pc.wrapping_add(2);
    if offset < 128 {
        base.wrapping_add(offset as u16)
    } else {
        base.wrapping_sub(256 - offset as u16)
    }
}

/// The word at `a` and `a + 1`, read without side effects.
fn read_abs(bus: &Bus, a: u16) -> (r: u16)
    requires
        bus.wf(),
    ensures
        r == abs_word(*bus, a),
{
    bus.peek(a) as u16 + 256 * bus.peek(a.wrapping_add(1)) as u16
}


/// Any instruction but a taken branch, JMP, JSR, RTS, RTI or BRK leaves the
/// program counter just past itself: one opcode byte plus its operand bytes.
pub proof fn lemma_pc_advances(
    reg: Register,
    bus: Bus,
    inst: Instruction,
    post_reg: Register,
    post_bus: Bus,
)
    requires
        step_post(reg, bus, inst, post_reg, post_bus),
        !(inst.opcode is JMP || inst.opcode is JSR || inst.opcode is RTS || inst.opcode is RTI
            || inst.opcode is BRK),
        !branch_taken(inst.opcode, reg.P.0),
    ensures
        post_reg.PC == pc_after(reg.PC, inst.mode),
{
    reveal(execute_post);
}

proof fn lemma_stack_wraps(s: u8)
    ensures
        wrap8(wrap8(s - 1) + 1) == s,
        wrap8(wrap8(s - 2) + 1) == wrap8(s - 1),
        wrap8(wrap8(s - 2) + 2) == s,
        wrap8(wrap8(s - 3) + 1) == wrap8(s - 2),
        wrap8(wrap8(s - 3) + 2) == wrap8(s - 1),
        wrap8(wrap8(s - 3) + 3) == s,
        stack_addr(s) != stack_addr(wrap8(s - 1)),
        stack_addr(s) != stack_addr(wrap8(s - 2)),
        stack_addr(wrap8(s - 1)) != stack_addr(wrap8(s - 2)),
        stack_addr(s) % 0x800 == stack_addr(s),
{
    assert(((s - 1) % 256 + 1) % 256 == s) by (nonlinear_arith)
        requires
            0 <= s < 256,
    ;
    assert(((s - 2) % 256 + 1) % 256 == (s - 1) % 256) by (nonlinear_arith)
        requires
            0 <= s < 256,
    ;
    assert(((s - 2) % 256 + 2) % 256 == s) by (nonlinear_arith)
        requires
            0 <= s < 256,
    ;
    assert(((s - 3) % 256 + 1) % 256 == (s - 2) % 256) by (nonlinear_arith)
        requires
            0 <= s < 256,
    ;
    assert(((s - 3) % 256 + 2) % 256 == (s - 1) % 256) by (nonlinear_arith)
        requires
            0 <= s < 256,
    ;
    assert(((s - 3) % 256 + 3) % 256 == s) by (nonlinear_arith)
        requires
            0 <= s < 256,
    ;
}

/// PHA then PLA gives back the accumulator and the stack pointer.
pub proof fn lemma_pha_pla(
    r: Register,
    bus: Bus,
    mid_reg: Register,
    mid_bus: Bus,
    post_reg: Register,
    post_bus: Bus,
    op1: Operand,
    op2: Operand,
)
    requires
        bus.wf(),
        execute_post(r, bus, Opcode::PHA, op1, mid_reg, mid_bus),
        execute_post(mid_reg, mid_bus, Opcode::PLA, op2, post_reg, post_bus),
    ensures
        post_reg.A == r.A,
        post_reg.S == r.S,
{
    reveal(Bus::store_post);
    reveal(Bus::value_at);
    reveal(execute_post);
    lemma_stack_wraps(r.S);
}

/// PHP then PLP gives back every flag but B and bit 5, and the stack pointer.
pub proof fn lemma_php_plp(
    r: Register,
    bus: Bus,
    mid_reg: Register,
    mid_bus: Bus,
    post_reg: Register,
    post_bus: Bus,
    op1: Operand,
    op2: Operand,
)
    requires
        bus.wf(),
        execute_post(r, bus, Opcode::PHP, op1, mid_reg, mid_bus),
        execute_post(mid_reg, mid_bus, Opcode::PLP, op2, post_reg, post_bus),
    ensures
        post_reg.P.0 & 0xcf == r.P.0 & 0xcf,
        post_reg.P.wf(),
        post_reg.S == r.S,
{
    reveal(Bus::store_post);
    reveal(Bus::value_at);
    reveal(execute_post);
    lemma_stack_wraps(r.S);
    let p = r.P.0;
    let pushed_p = with_flag(p, BREAK, true);
    assert(pushed_p == p | 0x10);
    assert((((p | 0x10) | 0x20) & !0x10u8) & 0xcf == p & 0xcf) by (bit_vector);
    assert((((p | 0x10) | 0x20) & !0x10u8) & 0x20 == 0x20) by (bit_vector);
}

/// JSR then RTS returns to the instruction after the JSR, with the stack
/// pointer where it was.
pub proof fn lemma_jsr_rts(
    r: Register,
    bus: Bus,
    mid_reg: Register,
    mid_bus: Bus,
    post_reg: Register,
    post_bus: Bus,
    op1: Operand,
    op2: Operand,
)
    requires
        bus.wf(),
        execute_post(r, bus, Opcode::JSR, op1, mid_reg, mid_bus),
        execute_post(mid_reg, mid_bus, Opcode::RTS, op2, post_reg, post_bus),
    ensures
        post_reg.PC == r.PC,
        post_reg.S == r.S,
{
    reveal(Bus::value_at);
    reveal(execute_post);
    lemma_stack_wraps(r.S);
    let ret = wrap16(r.PC - 1);
    assert(stack_addr(wrap8(r.S - 1)) % 0x800 == stack_addr(wrap8(r.S - 1)));
    assert((ret % 256) + 256 * (ret / 256) == ret) by (nonlinear_arith)
        requires
            0 <= ret < 65536,
    ;
    assert(wrap16(wrap16(r.PC - 1) + 1) == r.PC) by (nonlinear_arith)
        requires
            0 <= r.PC < 65536,
    ;
}

/// An NMI followed by RTI resumes at the interrupted instruction with the
/// flags as they were (B clear) and the stack pointer where it was.
pub proof fn lemma_nmi_rti(
    r: Register,
    bus: Bus,
    mid_reg: Register,
    mid_bus: Bus,
    post_reg: Register,
    post_bus: Bus,
    op: Operand,
)
    requires
        r.P.wf(),
        bus.wf(),
        nmi_post(r, bus, mid_reg, mid_bus),
        execute_post(mid_reg, mid_bus, Opcode::RTI, op, post_reg, post_bus),
    ensures
        post_reg.PC == r.PC,
        post_reg.P.0 == with_flag(r.P.0, BREAK, false),
        post_reg.S == r.S,
{
    reveal(Bus::value_at);
    reveal(execute_post);
    lemma_stack_wraps(r.S);
    assert(stack_addr(wrap8(r.S - 1)) % 0x800 == stack_addr(wrap8(r.S - 1)));
    assert(stack_addr(wrap8(r.S - 2)) % 0x800 == stack_addr(wrap8(r.S - 2)));
    let p = r.P.0;
    assert(((p & !0x10u8) | 0x20) & !0x10u8 == p & !0x10u8) by (bit_vector)
        requires
            p & 0x20 == 0x20,
    ;
    assert((r.PC % 256) + 256 * (r.PC / 256) == r.PC) by (nonlinear_arith)
        requires
            0 <= r.PC < 65536,
    ;
}

} // verus!
