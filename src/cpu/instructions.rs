use vstd::prelude::*;

verus! {

/// How an instruction finds its operand.
#[derive(Debug, Clone, Copy, PartialEq, Eq, Structural)]
pub enum AddressingMode {
    Implied,
    Accumulator,
    Immediate,
    ZeroPage,
    ZeroPageX,
    ZeroPageY,
    Absolute,
    AbsoluteX,
    AbsoluteY,
    Indirect,
    IndirectX,
    IndirectY,
    Relative,
}

/// The documented 6502 mnemonics.
#[derive(Debug, Clone, Copy, PartialEq, Eq, Structural)]
pub enum Opcode {
    ADC,
    AND,
    ASL,
    BCC,
    BCS,
    BEQ,
    BIT,
    BMI,
    BNE,
    BPL,
    BRK,
    BVC,
    BVS,
    CLC,
    CLD,
    CLI,
    CLV,
    CMP,
    CPX,
    CPY,
    DEC,
    DEX,
    DEY,
    EOR,
    INC,
    INX,
    INY,
    JMP,
    JSR,
    LDA,
    LDX,
    LDY,
    LSR,
    NOP,
    ORA,
    PHA,
    PHP,
    PLA,
    PLP,
    ROL,
    ROR,
    RTI,
    RTS,
    SBC,
    SEC,
    SED,
    SEI,
    STA,
    STX,
    STY,
    TAX,
    TAY,
    TSX,
    TXA,
    TXS,
    TYA,
}

/// One decoded entry of the opcode table.
#[derive(Debug, Clone, Copy, PartialEq, Eq, Structural)]
pub struct Instruction {
    pub opcode: Opcode,
    pub mode: AddressingMode,
    pub cycles: u8,
}

/// Number of bytes that follow the opcode byte for a mode.
pub open spec fn operand_bytes_spec(mode: AddressingMode) -> u8 {
    match mode {
        AddressingMode::Implied | AddressingMode::Accumulator => 0,
        AddressingMode::Absolute | AddressingMode::AbsoluteX | AddressingMode::AbsoluteY
        | AddressingMode::Indirect => 2,
        _ => 1,
    }
}

impl AddressingMode {
    /// Number of bytes that follow the opcode byte.
    pub fn operand_bytes(self) -> (r: u8)
        ensures
            r == operand_bytes_spec(self),
    {
        match self {
            AddressingMode::Implied | AddressingMode::Accumulator => 0,
            AddressingMode::Absolute | AddressingMode::AbsoluteX | AddressingMode::AbsoluteY
            | AddressingMode::Indirect => 2,
            _ => 1,
        }
    }
}

pub open spec fn entry(opcode: Opcode, mode: AddressingMode, cycles: u8) -> Option<Instruction> {
    Some(Instruction { opcode, mode, cycles })
}

/// The opcode table: the instruction that a fetched byte stands for, or `None`
/// for a byte that is not a documented opcode.
#[verifier::opaque]
pub open spec fn instruction_table(code: u8) -> Option<Instruction> {
    match code {
        0x00 => entry(Opcode::BRK, AddressingMode::Implied, 7),
        0x01 => entry(Opcode::ORA, AddressingMode::IndirectX, 6),
        0x05 => entry(Opcode::ORA, AddressingMode::ZeroPage, 3),
        0x06 => entry(Opcode::ASL, AddressingMode::ZeroPage, 5),
        0x08 => entry(Opcode::PHP, AddressingMode::Implied, 3),
        0x09 => entry(Opcode::ORA, AddressingMode::Immediate, 2),
        0x0a => entry(Opcode::ASL, AddressingMode::Accumulator, 2),
        0x0d => entry(Opcode::ORA, AddressingMode::Absolute, 4),
        0x0e => entry(Opcode::ASL, AddressingMode::Absolute, 6),
        0x10 => entry(Opcode::BPL, AddressingMode::Relative, 2),
        0x11 => entry(Opcode::ORA, AddressingMode::IndirectY, 5),
        0x15 => entry(Opcode::ORA, AddressingMode::ZeroPageX, 4),
        0x16 => entry(Opcode::ASL, AddressingMode::ZeroPageX, 6),
        0x18 => entry(Opcode::CLC, AddressingMode::Implied, 2),
        0x19 => entry(Opcode::ORA, AddressingMode::AbsoluteY, 4),
        0x1d => entry(Opcode::ORA, AddressingMode::AbsoluteX, 4),
        0x1e => entry(Opcode::ASL, AddressingMode::AbsoluteX, 7),
        0x20 => entry(Opcode::JSR, AddressingMode::Absolute, 6),
        0x21 => entry(Opcode::AND, AddressingMode::IndirectX, 6),
        0x24 => entry(Opcode::BIT, AddressingMode::ZeroPage, 3),
        0x25 => entry(Opcode::AND, AddressingMode::ZeroPage, 3),
        0x26 => entry(Opcode::ROL, AddressingMode::ZeroPage, 5),
        0x28 => entry(Opcode::PLP, AddressingMode::Implied, 4),
        0x29 => entry(Opcode::AND, AddressingMode::Immediate, 2),
        0x2a => entry(Opcode::ROL, AddressingMode::Accumulator, 2),
        0x2c => entry(Opcode::BIT, AddressingMode::Absolute, 4),
        0x2d => entry(Opcode::AND, AddressingMode::Absolute, 4),
        0x2e => entry(Opcode::ROL, AddressingMode::Absolute, 6),
        0x30 => entry(Opcode::BMI, AddressingMode::Relative, 2),
        0x31 => entry(Opcode::AND, AddressingMode::IndirectY, 5),
        0x35 => entry(Opcode::AND, AddressingMode::ZeroPageX, 4),
        0x36 => entry(Opcode::ROL, AddressingMode::ZeroPageX, 6),
        0x38 => entry(Opcode::SEC, AddressingMode::Implied, 2),
        0x39 => entry(Opcode::AND, AddressingMode::AbsoluteY, 4),
        0x3d => entry(Opcode::AND, AddressingMode::AbsoluteX, 4),
        0x3e => entry(Opcode::ROL, AddressingMode::AbsoluteX, 7),
        0x40 => entry(Opcode::RTI, AddressingMode::Implied, 6),
        0x41 => entry(Opcode::EOR, AddressingMode::IndirectX, 6),
        0x45 => entry(Opcode::EOR, AddressingMode::ZeroPage, 3),
        0x46 => entry(Opcode::LSR, AddressingMode::ZeroPage, 5),
        0x48 => entry(Opcode::PHA, AddressingMode::Implied, 3),
        0x49 => entry(Opcode::EOR, AddressingMode::Immediate, 2),
        0x4a => entry(Opcode::LSR, AddressingMode::Accumulator, 2),
        0x4c => entry(Opcode::JMP, AddressingMode::Absolute, 3),
        0x4d => entry(Opcode::EOR, AddressingMode::Absolute, 4),
        0x4e => entry(Opcode::LSR, AddressingMode::Absolute, 6),
        0x50 => entry(Opcode::BVC, AddressingMode::Relative, 2),
        0x51 => entry(Opcode::EOR, AddressingMode::IndirectY, 5),
        0x55 => entry(Opcode::EOR, AddressingMode::ZeroPageX, 4),
        0x56 => entry(Opcode::LSR, AddressingMode::ZeroPageX, 6),
        0x58 => entry(Opcode::CLI, AddressingMode::Implied, 2),
        0x59 => entry(Opcode::EOR, AddressingMode::AbsoluteY, 4),
        0x5d => entry(Opcode::EOR, AddressingMode::AbsoluteX, 4),
        0x5e => entry(Opcode::LSR, AddressingMode::AbsoluteX, 7),
        0x60 => entry(Opcode::RTS, AddressingMode::Implied, 6),
        0x61 => entry(Opcode::ADC, AddressingMode::IndirectX, 6),
        0x65 => entry(Opcode::ADC, AddressingMode::ZeroPage, 3),
        0x66 => entry(Opcode::ROR, AddressingMode::ZeroPage, 5),
        0x68 => entry(Opcode::PLA, AddressingMode::Implied, 4),
        0x69 => entry(Opcode::ADC, AddressingMode::Immediate, 2),
        0x6a => entry(Opcode::ROR, AddressingMode::Accumulator, 2),
        0x6c => entry(Opcode::JMP, AddressingMode::Indirect, 5),
        0x6d => entry(Opcode::ADC, AddressingMode::Absolute, 4),
        0x6e => entry(Opcode::ROR, AddressingMode::Absolute, 6),
        0x70 => entry(Opcode::BVS, AddressingMode::Relative, 2),
        0x71 => entry(Opcode::ADC, AddressingMode::IndirectY, 5),
        0x75 => entry(Opcode::ADC, AddressingMode::ZeroPageX, 4),
        0x76 => entry(Opcode::ROR, AddressingMode::ZeroPageX, 6),
        0x78 => entry(Opcode::SEI, AddressingMode::Implied, 2),
        0x79 => entry(Opcode::ADC, AddressingMode::AbsoluteY, 4),
        0x7d => entry(Opcode::ADC, AddressingMode::AbsoluteX, 4),
        0x7e => entry(Opcode::ROR, AddressingMode::AbsoluteX, 7),
        0x81 => entry(Opcode::STA, AddressingMode::IndirectX, 6),
        0x84 => entry(Opcode::STY, AddressingMode::ZeroPage, 3),
        0x85 => entry(Opcode::STA, AddressingMode::ZeroPage, 3),
        0x86 => entry(Opcode::STX, AddressingMode::ZeroPage, 3),
        0x88 => entry(Opcode::DEY, AddressingMode::Implied, 2),
        0x8a => entry(Opcode::TXA, AddressingMode::Implied, 2),
        0x8c => entry(Opcode::STY, AddressingMode::Absolute, 4),
        0x8d => entry(Opcode::STA, AddressingMode::Absolute, 4),
        0x8e => entry(Opcode::STX, AddressingMode::Absolute, 4),
        0x90 => entry(Opcode::BCC, AddressingMode::Relative, 2),
        0x91 => entry(Opcode::STA, AddressingMode::IndirectY, 6),
        0x94 => entry(Opcode::STY, AddressingMode::ZeroPageX, 4),
        0x95 => entry(Opcode::STA, AddressingMode::ZeroPageX, 4),
        0x96 => entry(Opcode::STX, AddressingMode::ZeroPageY, 4),
        0x98 => entry(Opcode::TYA, AddressingMode::Implied, 2),
        0x99 => entry(Opcode::STA, AddressingMode::AbsoluteY, 5),
        0x9a => entry(Opcode::TXS, AddressingMode::Implied, 2),
        0x9d => entry(Opcode::STA, AddressingMode::AbsoluteX, 5),
        0xa0 => entry(Opcode::LDY, AddressingMode::Immediate, 2),
        0xa1 => entry(Opcode::LDA, AddressingMode::IndirectX, 6),
        0xa2 => entry(Opcode::LDX, AddressingMode::Immediate, 2),
        0xa4 => entry(Opcode::LDY, AddressingMode::ZeroPage, 3),
        0xa5 => entry(Opcode::LDA, AddressingMode::ZeroPage, 3),
        0xa6 => entry(Opcode::LDX, AddressingMode::ZeroPage, 3),
        0xa8 => entry(Opcode::TAY, AddressingMode::Implied, 2),
        0xa9 => entry(Opcode::LDA, AddressingMode::Immediate, 2),
        0xaa => entry(Opcode::TAX, AddressingMode::Implied, 2),
        0xac => entry(Opcode::LDY, AddressingMode::Absolute, 4),
        0xad => entry(Opcode::LDA, AddressingMode::Absolute, 4),
        0xae => entry(Opcode::LDX, AddressingMode::Absolute, 4),
        0xb0 => entry(Opcode::BCS, AddressingMode::Relative, 2),
        0xb1 => entry(Opcode::LDA, AddressingMode::IndirectY, 5),
        0xb4 => entry(Opcode::LDY, AddressingMode::ZeroPageX, 4),
        0xb5 => entry(Opcode::LDA, AddressingMode::ZeroPageX, 4),
        0xb6 => entry(Opcode::LDX, AddressingMode::ZeroPageY, 4),
        0xb8 => entry(Opcode::CLV, AddressingMode::Implied, 2),
        0xb9 => entry(Opcode::LDA, AddressingMode::AbsoluteY, 4),
        0xba => entry(Opcode::TSX, AddressingMode::Implied, 2),
        0xbc => entry(Opcode::LDY, AddressingMode::AbsoluteX, 4),
        0xbd => entry(Opcode::LDA, AddressingMode::AbsoluteX, 4),
        0xbe => entry(Opcode::LDX, AddressingMode::AbsoluteY, 4),
        0xc0 => entry(Opcode::CPY, AddressingMode::Immediate, 2),
        0xc1 => entry(Opcode::CMP, AddressingMode::IndirectX, 6),
        0xc4 => entry(Opcode::CPY, AddressingMode::ZeroPage, 3),
        0xc5 => entry(Opcode::CMP, AddressingMode::ZeroPage, 3),
        0xc6 => entry(Opcode::DEC, AddressingMode::ZeroPage, 5),
        0xc8 => entry(Opcode::INY, AddressingMode::Implied, 2),
        0xc9 => entry(Opcode::CMP, AddressingMode::Immediate, 2),
        0xca => entry(Opcode::DEX, AddressingMode::Implied, 2),
        0xcc => entry(Opcode::CPY, AddressingMode::Absolute, 4),
        0xcd => entry(Opcode::CMP, AddressingMode::Absolute, 4),
        0xce => entry(Opcode::DEC, AddressingMode::Absolute, 6),
        0xd0 => entry(Opcode::BNE, AddressingMode::Relative, 2),
        0xd1 => entry(Opcode::CMP, AddressingMode::IndirectY, 5),
        0xd5 => entry(Opcode::CMP, AddressingMode::ZeroPageX, 4),
        0xd6 => entry(Opcode::DEC, AddressingMode::ZeroPageX, 6),
        0xd8 => entry(Opcode::CLD, AddressingMode::Implied, 2),
        0xd9 => entry(Opcode::CMP, AddressingMode::AbsoluteY, 4),
        0xdd => entry(Opcode::CMP, AddressingMode::AbsoluteX, 4),
        0xde => entry(Opcode::DEC, AddressingMode::AbsoluteX, 7),
        0xe0 => entry(Opcode::CPX, AddressingMode::Immediate, 2),
        0xe1 => entry(Opcode::SBC, AddressingMode::IndirectX, 6),
        0xe4 => entry(Opcode::CPX, AddressingMode::ZeroPage, 3),
        0xe5 => entry(Opcode::SBC, AddressingMode::ZeroPage, 3),
        0xe6 => entry(Opcode::INC, AddressingMode::ZeroPage, 5),
        0xe8 => entry(Opcode::INX, AddressingMode::Implied, 2),
        0xe9 => entry(Opcode::SBC, AddressingMode::Immediate, 2),
        0xea => entry(Opcode::NOP, AddressingMode::Implied, 2),
        0xec => entry(Opcode::CPX, AddressingMode::Absolute, 4),
        0xed => entry(Opcode::SBC, AddressingMode::Absolute, 4),
        0xee => entry(Opcode::INC, AddressingMode::Absolute, 6),
        0xf0 => entry(Opcode::BEQ, AddressingMode::Relative, 2),
        0xf1 => entry(Opcode::SBC, AddressingMode::IndirectY, 5),
        0xf5 => entry(Opcode::SBC, AddressingMode::ZeroPageX, 4),
        0xf6 => entry(Opcode::INC, AddressingMode::ZeroPageX, 6),
        0xf8 => entry(Opcode::SED, AddressingMode::Implied, 2),
        0xf9 => entry(Opcode::SBC, AddressingMode::AbsoluteY, 4),
        0xfd => entry(Opcode::SBC, AddressingMode::AbsoluteX, 4),
        0xfe => entry(Opcode::INC, AddressingMode::AbsoluteX, 7),
        _ => None,
    }
}

fn make(opcode: Opcode, mode: AddressingMode, cycles: u8) -> (r: Option<Instruction>)
    ensures
        r == entry(opcode, mode, cycles),
{
    Some(Instruction { opcode, mode, cycles })
}

impl Instruction {
    /// Decodes a fetched opcode byte; `None` for an undocumented byte.
    pub fn from_code(code: u8) -> (r: Option<Instruction>)
        ensures
            r == instruction_table(code),
    {
        reveal(instruction_table);
        match code {
            0x00 => make(Opcode::BRK, AddressingMode::Implied, 7),
            0x01 => make(Opcode::ORA, AddressingMode::IndirectX, 6),
            0x05 => make(Opcode::ORA, AddressingMode::ZeroPage, 3),
            0x06 => make(Opcode::ASL, AddressingMode::ZeroPage, 5),
            0x08 => make(Opcode::PHP, AddressingMode::Implied, 3),
            0x09 => make(Opcode::ORA, AddressingMode::Immediate, 2),
            0x0a => make(Opcode::ASL, AddressingMode::Accumulator, 2),
            0x0d => make(Opcode::ORA, AddressingMode::Absolute, 4),
            0x0e => make(Opcode::ASL, AddressingMode::Absolute, 6),
            0x10 => make(Opcode::BPL, AddressingMode::Relative, 2),
            0x11 => make(Opcode::ORA, AddressingMode::IndirectY, 5),
            0x15 => make(Opcode::ORA, AddressingMode::ZeroPageX, 4),
            0x16 => make(Opcode::ASL, AddressingMode::ZeroPageX, 6),
            0x18 => make(Opcode::CLC, AddressingMode::Implied, 2),
            0x19 => make(Opcode::ORA, AddressingMode::AbsoluteY, 4),
            0x1d => make(Opcode::ORA, AddressingMode::AbsoluteX, 4),
            0x1e => make(Opcode::ASL, AddressingMode::AbsoluteX, 7),
            0x20 => make(Opcode::JSR, AddressingMode::Absolute, 6),
            0x21 => make(Opcode::AND, AddressingMode::IndirectX, 6),
            0x24 => make(Opcode::BIT, AddressingMode::ZeroPage, 3),
            0x25 => make(Opcode::AND, AddressingMode::ZeroPage, 3),
            0x26 => make(Opcode::ROL, AddressingMode::ZeroPage, 5),
            0x28 => make(Opcode::PLP, AddressingMode::Implied, 4),
            0x29 => make(Opcode::AND, AddressingMode::Immediate, 2),
            0x2a => make(Opcode::ROL, AddressingMode::Accumulator, 2),
            0x2c => make(Opcode::BIT, AddressingMode::Absolute, 4),
            0x2d => make(Opcode::AND, AddressingMode::Absolute, 4),
            0x2e => make(Opcode::ROL, AddressingMode::Absolute, 6),
            0x30 => make(Opcode::BMI, AddressingMode::Relative, 2),
            0x31 => make(Opcode::AND, AddressingMode::IndirectY, 5),
            0x35 => make(Opcode::AND, AddressingMode::ZeroPageX, 4),
            0x36 => make(Opcode::ROL, AddressingMode::ZeroPageX, 6),
            0x38 => make(Opcode::SEC, AddressingMode::Implied, 2),
            0x39 => make(Opcode::AND, AddressingMode::AbsoluteY, 4),
            0x3d => make(Opcode::AND, AddressingMode::AbsoluteX, 4),
            0x3e => make(Opcode::ROL, AddressingMode::AbsoluteX, 7),
            0x40 => make(Opcode::RTI, AddressingMode::Implied, 6),
            0x41 => make(Opcode::EOR, AddressingMode::IndirectX, 6),
            0x45 => make(Opcode::EOR, AddressingMode::ZeroPage, 3),
            0x46 => make(Opcode::LSR, AddressingMode::ZeroPage, 5),
            0x48 => make(Opcode::PHA, AddressingMode::Implied, 3),
            0x49 => make(Opcode::EOR, AddressingMode::Immediate, 2),
            0x4a => make(Opcode::LSR, AddressingMode::Accumulator, 2),
            0x4c => make(Opcode::JMP, AddressingMode::Absolute, 3),
            0x4d => make(Opcode::EOR, AddressingMode::Absolute, 4),
            0x4e => make(Opcode::LSR, AddressingMode::Absolute, 6),
            0x50 => make(Opcode::BVC, AddressingMode::Relative, 2),
            0x51 => make(Opcode::EOR, AddressingMode::IndirectY, 5),
            0x55 => make(Opcode::EOR, AddressingMode::ZeroPageX, 4),
            0x56 => make(Opcode::LSR, AddressingMode::ZeroPageX, 6),
            0x58 => make(Opcode::CLI, AddressingMode::Implied, 2),
            0x59 => make(Opcode::EOR, AddressingMode::AbsoluteY, 4),
            0x5d => make(Opcode::EOR, AddressingMode::AbsoluteX, 4),
            0x5e => make(Opcode::LSR, AddressingMode::AbsoluteX, 7),
            0x60 => make(Opcode::RTS, AddressingMode::Implied, 6),
            0x61 => make(Opcode::ADC, AddressingMode::IndirectX, 6),
            0x65 => make(Opcode::ADC, AddressingMode::ZeroPage, 3),
            0x66 => make(Opcode::ROR, AddressingMode::ZeroPage, 5),
            0x68 => make(Opcode::PLA, AddressingMode::Implied, 4),
            0x69 => make(Opcode::ADC, AddressingMode::Immediate, 2),
            0x6a => make(Opcode::ROR, AddressingMode::Accumulator, 2),
            0x6c => make(Opcode::JMP, AddressingMode::Indirect, 5),
            0x6d => make(Opcode::ADC, AddressingMode::Absolute, 4),
            0x6e => make(Opcode::ROR, AddressingMode::Absolute, 6),
            0x70 => make(Opcode::BVS, AddressingMode::Relative, 2),
            0x71 => make(Opcode::ADC, AddressingMode::IndirectY, 5),
            0x75 => make(Opcode::ADC, AddressingMode::ZeroPageX, 4),
            0x76 => make(Opcode::ROR, AddressingMode::ZeroPageX, 6),
            0x78 => make(Opcode::SEI, AddressingMode::Implied, 2),
            0x79 => make(Opcode::ADC, AddressingMode::AbsoluteY, 4),
            0x7d => make(Opcode::ADC, AddressingMode::AbsoluteX, 4),
            0x7e => make(Opcode::ROR, AddressingMode::AbsoluteX, 7),
            0x81 => make(Opcode::STA, AddressingMode::IndirectX, 6),
            0x84 => make(Opcode::STY, AddressingMode::ZeroPage, 3),
            0x85 => make(Opcode::STA, AddressingMode::ZeroPage, 3),
            0x86 => make(Opcode::STX, AddressingMode::ZeroPage, 3),
            0x88 => make(Opcode::DEY, AddressingMode::Implied, 2),
            0x8a => make(Opcode::TXA, AddressingMode::Implied, 2),
            0x8c => make(Opcode::STY, AddressingMode::Absolute, 4),
            0x8d => make(Opcode::STA, AddressingMode::Absolute, 4),
            0x8e => make(Opcode::STX, AddressingMode::Absolute, 4),
            0x90 => make(Opcode::BCC, AddressingMode::Relative, 2),
            0x91 => make(Opcode::STA, AddressingMode::IndirectY, 6),
            0x94 => make(Opcode::STY, AddressingMode::ZeroPageX, 4),
            0x95 => make(Opcode::STA, AddressingMode::ZeroPageX, 4),
            0x96 => make(Opcode::STX, AddressingMode::ZeroPageY, 4),
            0x98 => make(Opcode::TYA, AddressingMode::Implied, 2),
            0x99 => make(Opcode::STA, AddressingMode::AbsoluteY, 5),
            0x9a => make(Opcode::TXS, AddressingMode::Implied, 2),
            0x9d => make(Opcode::STA, AddressingMode::AbsoluteX, 5),
            0xa0 => make(Opcode::LDY, AddressingMode::Immediate, 2),
            0xa1 => make(Opcode::LDA, AddressingMode::IndirectX, 6),
            0xa2 => make(Opcode::LDX, AddressingMode::Immediate, 2),
            0xa4 => make(Opcode::LDY, AddressingMode::ZeroPage, 3),
            0xa5 => make(Opcode::LDA, AddressingMode::ZeroPage, 3),
            0xa6 => make(Opcode::LDX, AddressingMode::ZeroPage, 3),
            0xa8 => make(Opcode::TAY, AddressingMode::Implied, 2),
            0xa9 => make(Opcode::LDA, AddressingMode::Immediate, 2),
            0xaa => make(Opcode::TAX, AddressingMode::Implied, 2),
            0xac => make(Opcode::LDY, AddressingMode::Absolute, 4),
            0xad => make(Opcode::LDA, AddressingMode::Absolute, 4),
            0xae => make(Opcode::LDX, AddressingMode::Absolute, 4),
            0xb0 => make(Opcode::BCS, AddressingMode::Relative, 2),
            0xb1 => make(Opcode::LDA, AddressingMode::IndirectY, 5),
            0xb4 => make(Opcode::LDY, AddressingMode::ZeroPageX, 4),
            0xb5 => make(Opcode::LDA, AddressingMode::ZeroPageX, 4),
            0xb6 => make(Opcode::LDX, AddressingMode::ZeroPageY, 4),
            0xb8 => make(Opcode::CLV, AddressingMode::Implied, 2),
            0xb9 => make(Opcode::LDA, AddressingMode::AbsoluteY, 4),
            0xba => make(Opcode::TSX, AddressingMode::Implied, 2),
            0xbc => make(Opcode::LDY, AddressingMode::AbsoluteX, 4),
            0xbd => make(Opcode::LDA, AddressingMode::AbsoluteX, 4),
            0xbe => make(Opcode::LDX, AddressingMode::AbsoluteY, 4),
            0xc0 => make(Opcode::CPY, AddressingMode::Immediate, 2),
            0xc1 => make(Opcode::CMP, AddressingMode::IndirectX, 6),
            0xc4 => make(Opcode::CPY, AddressingMode::ZeroPage, 3),
            0xc5 => make(Opcode::CMP, AddressingMode::ZeroPage, 3),
            0xc6 => make(Opcode::DEC, AddressingMode::ZeroPage, 5),
            0xc8 => make(Opcode::INY, AddressingMode::Implied, 2),
            0xc9 => make(Opcode::CMP, AddressingMode::Immediate, 2),
            0xca => make(Opcode::DEX, AddressingMode::Implied, 2),
            0xcc => make(Opcode::CPY, AddressingMode::Absolute, 4),
            0xcd => make(Opcode::CMP, AddressingMode::Absolute, 4),
            0xce => make(Opcode::DEC, AddressingMode::Absolute, 6),
            0xd0 => make(Opcode::BNE, AddressingMode::Relative, 2),
            0xd1 => make(Opcode::CMP, AddressingMode::IndirectY, 5),
            0xd5 => make(Opcode::CMP, AddressingMode::ZeroPageX, 4),
            0xd6 => make(Opcode::DEC, AddressingMode::ZeroPageX, 6),
            0xd8 => make(Opcode::CLD, AddressingMode::Implied, 2),
            0xd9 => make(Opcode::CMP, AddressingMode::AbsoluteY, 4),
            0xdd => make(Opcode::CMP, AddressingMode::AbsoluteX, 4),
            0xde => make(Opcode::DEC, AddressingMode::AbsoluteX, 7),
            0xe0 => make(Opcode::CPX, AddressingMode::Immediate, 2),
            0xe1 => make(Opcode::SBC, AddressingMode::IndirectX, 6),
            0xe4 => make(Opcode::CPX, AddressingMode::ZeroPage, 3),
            0xe5 => make(Opcode::SBC, AddressingMode::ZeroPage, 3),
            0xe6 => make(Opcode::INC, AddressingMode::ZeroPage, 5),
            0xe8 => make(Opcode::INX, AddressingMode::Implied, 2),
            0xe9 => make(Opcode::SBC, AddressingMode::Immediate, 2),
            0xea => make(Opcode::NOP, AddressingMode::Implied, 2),
            0xec => make(Opcode::CPX, AddressingMode::Absolute, 4),
            0xed => make(Opcode::SBC, AddressingMode::Absolute, 4),
            0xee => make(Opcode::INC, AddressingMode::Absolute, 6),
            0xf0 => make(Opcode::BEQ, AddressingMode::Relative, 2),
            0xf1 => make(Opcode::SBC, AddressingMode::IndirectY, 5),
            0xf5 => make(Opcode::SBC, AddressingMode::ZeroPageX, 4),
            0xf6 => make(Opcode::INC, AddressingMode::ZeroPageX, 6),
            0xf8 => make(Opcode::SED, AddressingMode::Implied, 2),
            0xf9 => make(Opcode::SBC, AddressingMode::AbsoluteY, 4),
            0xfd => make(Opcode::SBC, AddressingMode::AbsoluteX, 4),
            0xfe => make(Opcode::INC, AddressingMode::AbsoluteX, 7),
            _ => None,
        }
    }
}

/// Every documented instruction takes between 2 and 7 cycles.
pub proof fn lemma_cycles_in_range(code: u8)
    ensures
        instruction_table(code) matches Some(inst) ==> 2 <= inst.cycles <= 7,
{
    reveal(instruction_table);
}

} // verus!
