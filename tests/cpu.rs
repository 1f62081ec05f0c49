use nes::apu::Apu;
use nes::bus::Bus;
use nes::cartridge::Cartridge;
use nes::cpu::instructions::{AddressingMode, Instruction, Opcode};
use nes::cpu::register::StatusRegister;
use nes::cpu::{Cpu, CpuError};
use nes::dma::Dma;
use nes::joypad::JoyPad;
use nes::memory::Memory;
use nes::ppu::Ppu;

/// A bus whose PRG-ROM is 32 KiB of zeros except for the three vectors.
fn make_bus(nmi: u16, reset: u16, irq: u16) -> Bus {
    let mut prg = vec![0u8; 0x8000];
    prg[0x7ffa] = (nmi & 0xff) as u8;
    prg[0x7ffb] = (nmi >> 8) as u8;
    prg[0x7ffc] = (reset & 0xff) as u8;
    prg[0x7ffd] = (reset >> 8) as u8;
    prg[0x7ffe] = (irq & 0xff) as u8;
    prg[0x7fff] = (irq >> 8) as u8;
    let cartridge = Cartridge { prg_rom: prg, chr_rom: vec![0u8; 0x2000] };
    let ppu = Ppu::from_cartridge(&cartridge);
    Bus::new(cartridge, Memory::new(), ppu, Apu::new(), JoyPad::new(), Dma::new())
}

/// A processor at `at` with `program` placed in work RAM there.
fn setup(program: &[u8], at: u16) -> (Cpu, Bus) {
    let mut bus = make_bus(0x0300, 0x0200, 0x0380);
    for (i, b) in program.iter().enumerate() {
        bus.store(at + i as u16, *b);
    }
    let mut cpu = Cpu::new();
    cpu.reg.PC = at;
    (cpu, bus)
}

fn run(cpu: &mut Cpu, bus: &mut Bus, n: usize) {
    for _ in 0..n {
        cpu.exec(bus).unwrap();
    }
}

#[test]
fn opcode_table_decodes_documented_bytes() {
    assert_eq!(
        Instruction::from_code(0xa9),
        Some(Instruction { opcode: Opcode::LDA, mode: AddressingMode::Immediate, cycles: 2 })
    );
    assert_eq!(
        Instruction::from_code(0x6c),
        Some(Instruction { opcode: Opcode::JMP, mode: AddressingMode::Indirect, cycles: 5 })
    );
    assert_eq!(Instruction::from_code(0x02), None);
    let documented = (0..=255u8).filter(|c| Instruction::from_code(*c).is_some()).count();
    assert_eq!(documented, 151);
}

#[test]
fn operand_bytes_by_mode() {
    assert_eq!(AddressingMode::Implied.operand_bytes(), 0);
    assert_eq!(AddressingMode::Accumulator.operand_bytes(), 0);
    assert_eq!(AddressingMode::Relative.operand_bytes(), 1);
    assert_eq!(AddressingMode::IndirectY.operand_bytes(), 1);
    assert_eq!(AddressingMode::Indirect.operand_bytes(), 2);
    assert_eq!(AddressingMode::AbsoluteX.operand_bytes(), 2);
}

#[test]
fn status_register_keeps_bit_5() {
    let mut p = StatusRegister::new();
    assert_eq!(p.to_u8(), 0x24);
    p.set_u8(0x00);
    assert_eq!(p.to_u8(), 0x20);
    p.set_carry_flag(true);
    p.set_negative_flag(true);
    assert_eq!(p.to_u8(), 0xa1);
    assert!(p.carry_flag() && p.negative_flag() && !p.zero_flag());
}

#[test]
fn lda_immediate_sets_zero_and_negative() {
    let (mut cpu, mut bus) = setup(&[0xa9, 0x00, 0xa9, 0x80], 0x0200);
    assert_eq!(cpu.exec(&mut bus), Ok(2));
    assert_eq!(cpu.reg.A, 0);
    assert_eq!(cpu.reg.PC, 0x0202);
    assert!(cpu.reg.P.zero_flag() && !cpu.reg.P.negative_flag());
    cpu.exec(&mut bus).unwrap();
    assert_eq!(cpu.reg.A, 0x80);
    assert!(!cpu.reg.P.zero_flag() && cpu.reg.P.negative_flag());
    assert_eq!(cpu.reg.P.to_u8() & 0x20, 0x20);
}

#[test]
fn pc_advances_by_operand_bytes() {
    // STA $0400 (3 bytes), NOP (1), LDA $10 (2)
    let (mut cpu, mut bus) = setup(&[0x8d, 0x00, 0x04, 0xea, 0xa5, 0x10], 0x0200);
    cpu.exec(&mut bus).unwrap();
    assert_eq!(cpu.reg.PC, 0x0203);
    cpu.exec(&mut bus).unwrap();
    assert_eq!(cpu.reg.PC, 0x0204);
    cpu.exec(&mut bus).unwrap();
    assert_eq!(cpu.reg.PC, 0x0206);
}

#[test]
fn adc_sets_overflow_on_sign_change() {
    // CLC; LDA #$50; ADC #$50
    let (mut cpu, mut bus) = setup(&[0x18, 0xa9, 0x50, 0x69, 0x50], 0x0200);
    run(&mut cpu, &mut bus, 3);
    assert_eq!(cpu.reg.A, 0xa0);
    assert!(cpu.reg.P.overflow_flag());
    assert!(!cpu.reg.P.carry_flag());
    assert!(cpu.reg.P.negative_flag());
}

#[test]
fn adc_carries_in_and_out() {
    // SEC; LDA #$FF; ADC #$01
    let (mut cpu, mut bus) = setup(&[0x38, 0xa9, 0xff, 0x69, 0x01], 0x0200);
    run(&mut cpu, &mut bus, 3);
    assert_eq!(cpu.reg.A, 0x01);
    assert!(cpu.reg.P.carry_flag());
    assert!(!cpu.reg.P.overflow_flag());
    assert!(!cpu.reg.P.zero_flag());
}

#[test]
fn sbc_borrow_and_overflow() {
    // SEC; LDA #$50; SBC #$B0
    let (mut cpu, mut bus) = setup(&[0x38, 0xa9, 0x50, 0xe9, 0xb0], 0x0200);
    run(&mut cpu, &mut bus, 3);
    assert_eq!(cpu.reg.A, 0xa0);
    assert!(!cpu.reg.P.carry_flag());
    assert!(cpu.reg.P.overflow_flag());
    // SEC; LDA #$50; SBC #$10
    let (mut cpu, mut bus) = setup(&[0x38, 0xa9, 0x50, 0xe9, 0x10], 0x0200);
    run(&mut cpu, &mut bus, 3);
    assert_eq!(cpu.reg.A, 0x40);
    assert!(cpu.reg.P.carry_flag());
    assert!(!cpu.reg.P.overflow_flag());
}

#[test]
fn cmp_sets_carry_zero_negative() {
    // LDA #$40; CMP #$40; CMP #$41
    let (mut cpu, mut bus) = setup(&[0xa9, 0x40, 0xc9, 0x40, 0xc9, 0x41], 0x0200);
    run(&mut cpu, &mut bus, 2);
    assert!(cpu.reg.P.zero_flag() && cpu.reg.P.carry_flag() && !cpu.reg.P.negative_flag());
    cpu.exec(&mut bus).unwrap();
    assert!(!cpu.reg.P.zero_flag() && !cpu.reg.P.carry_flag() && cpu.reg.P.negative_flag());
}

#[test]
fn asl_accumulator_shifts_into_carry() {
    // LDA #$81; ASL A
    let (mut cpu, mut bus) = setup(&[0xa9, 0x81, 0x0a], 0x0200);
    run(&mut cpu, &mut bus, 2);
    assert_eq!(cpu.reg.A, 0x02);
    assert!(cpu.reg.P.carry_flag());
    assert!(!cpu.reg.P.negative_flag() && !cpu.reg.P.zero_flag());
}

#[test]
fn ror_memory_rotates_carry_in() {
    // SEC; ROR $10 with $10 = 0x02
    let (mut cpu, mut bus) = setup(&[0x38, 0x66, 0x10], 0x0200);
    bus.store(0x0010, 0x02);
    run(&mut cpu, &mut bus, 2);
    assert_eq!(bus.load(0x0010), 0x81);
    assert!(!cpu.reg.P.carry_flag());
    assert!(cpu.reg.P.negative_flag());
}

#[test]
fn inc_memory_wraps_to_zero() {
    let (mut cpu, mut bus) = setup(&[0xe6, 0x10], 0x0200);
    bus.store(0x0010, 0xff);
    cpu.exec(&mut bus).unwrap();
    assert_eq!(bus.load(0x0010), 0x00);
    assert!(cpu.reg.P.zero_flag());
}

#[test]
fn pha_pla_round_trip() {
    // LDA #$37; PHA; LDA #$00; PLA
    let (mut cpu, mut bus) = setup(&[0xa9, 0x37, 0x48, 0xa9, 0x00, 0x68], 0x0200);
    run(&mut cpu, &mut bus, 2);
    assert_eq!(cpu.reg.S, 0xfc);
    assert_eq!(bus.load(0x01fd), 0x37);
    run(&mut cpu, &mut bus, 2);
    assert_eq!(cpu.reg.A, 0x37);
    assert_eq!(cpu.reg.S, 0xfd);
}

#[test]
fn php_pushes_break_and_plp_ignores_it() {
    // PHP; PLP
    let (mut cpu, mut bus) = setup(&[0x08, 0x28], 0x0200);
    cpu.exec(&mut bus).unwrap();
    assert_eq!(bus.load(0x01fd), 0x34);
    cpu.exec(&mut bus).unwrap();
    assert_eq!(cpu.reg.P.to_u8(), 0x24);
    assert_eq!(cpu.reg.S, 0xfd);
}

#[test]
fn jsr_rts_returns_after_call() {
    let (mut cpu, mut bus) = setup(&[0x20, 0x10, 0x02, 0xea], 0x0200);
    bus.store(0x0210, 0x60);
    cpu.exec(&mut bus).unwrap();
    assert_eq!(cpu.reg.PC, 0x0210);
    assert_eq!(cpu.reg.S, 0xfb);
    assert_eq!(bus.load(0x01fd), 0x02);
    assert_eq!(bus.load(0x01fc), 0x02);
    cpu.exec(&mut bus).unwrap();
    assert_eq!(cpu.reg.PC, 0x0203);
    assert_eq!(cpu.reg.S, 0xfd);
}

#[test]
fn branch_takes_negative_offset() {
    // BNE -4 at 0x0210 with Z clear
    let (mut cpu, mut bus) = setup(&[0xd0, 0xfc], 0x0210);
    assert_eq!(cpu.exec(&mut bus), Ok(2));
    assert_eq!(cpu.reg.PC, 0x020e);
    // BEQ not taken
    let (mut cpu, mut bus) = setup(&[0xf0, 0x10], 0x0210);
    cpu.exec(&mut bus).unwrap();
    assert_eq!(cpu.reg.PC, 0x0212);
}

#[test]
fn jmp_indirect_wraps_within_page() {
    let (mut cpu, mut bus) = setup(&[0x6c, 0xff, 0x02], 0x0400);
    bus.store(0x02ff, 0x34);
    bus.store(0x0200, 0x12);
    bus.store(0x0300, 0x56);
    cpu.exec(&mut bus).unwrap();
    assert_eq!(cpu.reg.PC, 0x1234);
}

#[test]
fn zero_page_x_wraps_within_zero_page() {
    let (mut cpu, mut bus) = setup(&[0xb5, 0x80], 0x0200);
    cpu.reg.X = 0xff;
    bus.store(0x007f, 0x99);
    bus.store(0x017f, 0x11);
    cpu.exec(&mut bus).unwrap();
    assert_eq!(cpu.reg.A, 0x99);
}

#[test]
fn indirect_y_adds_after_pointer() {
    // LDA ($10),Y with ($10) = 0x0300, Y = 4
    let (mut cpu, mut bus) = setup(&[0xb1, 0x10], 0x0200);
    bus.store(0x0010, 0x00);
    bus.store(0x0011, 0x03);
    bus.store(0x0304, 0x5a);
    cpu.reg.Y = 4;
    assert_eq!(cpu.exec(&mut bus), Ok(5));
    assert_eq!(cpu.reg.A, 0x5a);
}

#[test]
fn unknown_opcode_stops_with_nothing_changed() {
    let (mut cpu, mut bus) = setup(&[0x02], 0x0200);
    let before = cpu.reg;
    assert_eq!(cpu.exec(&mut bus), Err(CpuError::UnknownOpcode { code: 0x02, pc: 0x0200 }));
    assert_eq!(cpu.reg, before);
}

#[test]
fn reset_loads_vector_and_power_up_state() {
    let mut bus = make_bus(0x9000, 0x8123, 0xa000);
    let mut cpu = Cpu::new();
    cpu.reg.A = 5;
    cpu.reset(&mut bus);
    assert_eq!(cpu.reg.PC, 0x8123);
    assert_eq!(cpu.reg.S, 0xfd);
    assert_eq!(cpu.reg.P.to_u8(), 0x24);
    assert_eq!(cpu.reg.A, 0);
}

#[test]
fn nmi_then_rti_resumes() {
    let (mut cpu, mut bus) = setup(&[0xea], 0x0200);
    bus.store(0x0300, 0x40);
    cpu.reg.P.set_carry_flag(true);
    cpu.nmi(&mut bus);
    assert_eq!(cpu.reg.PC, 0x0300);
    assert_eq!(cpu.reg.S, 0xfa);
    assert!(cpu.reg.P.interrupt_disable_flag());
    assert_eq!(bus.load(0x01fd), 0x02);
    assert_eq!(bus.load(0x01fc), 0x00);
    assert_eq!(bus.load(0x01fb), 0x25);
    cpu.exec(&mut bus).unwrap();
    assert_eq!(cpu.reg.PC, 0x0200);
    assert_eq!(cpu.reg.S, 0xfd);
    assert_eq!(cpu.reg.P.to_u8(), 0x25);
}

#[test]
fn brk_pushes_with_break_flag() {
    let (mut cpu, mut bus) = setup(&[0x00], 0x0200);
    assert_eq!(cpu.exec(&mut bus), Ok(7));
    assert_eq!(cpu.reg.PC, 0x0380);
    assert_eq!(bus.load(0x01fd), 0x02);
    assert_eq!(bus.load(0x01fc), 0x02);
    assert_eq!(bus.load(0x01fb), 0x34);
    assert!(cpu.reg.P.interrupt_disable_flag());
}

#[test]
fn transfers_and_index_wrap() {
    // LDX #$00; DEX; TXA; TXS; INY
    let (mut cpu, mut bus) = setup(&[0xa2, 0x00, 0xca, 0x8a, 0x9a, 0xc8], 0x0200);
    run(&mut cpu, &mut bus, 5);
    assert_eq!(cpu.reg.X, 0xff);
    assert_eq!(cpu.reg.A, 0xff);
    assert_eq!(cpu.reg.S, 0xff);
    assert_eq!(cpu.reg.Y, 0x01);
    assert!(!cpu.reg.P.negative_flag());
}

#[test]
fn bit_copies_bits_6_and_7() {
    // LDA #$01; BIT $10 with $10 = 0xC0
    let (mut cpu, mut bus) = setup(&[0xa9, 0x01, 0x24, 0x10], 0x0200);
    bus.store(0x0010, 0xc0);
    run(&mut cpu, &mut bus, 2);
    assert!(cpu.reg.P.zero_flag());
    assert!(cpu.reg.P.overflow_flag());
    assert!(cpu.reg.P.negative_flag());
}

#[test]
fn fetch_from_unmapped_address_is_a_fault() {
    let (mut cpu, mut bus) = setup(&[], 0x0200);
    cpu.reg.PC = 0x5000;
    assert_eq!(cpu.exec(&mut bus), Err(CpuError::UnmappedFetch { addr: 0x5000 }));
    assert_eq!(bus.fault, Some(nes::bus::BusFault::UnmappedLoad(0x5000)));
    assert_eq!(cpu.reg.PC, 0x5000);
}

#[test]
fn indirect_pointer_in_unmapped_space_is_a_fault() {
    let (mut cpu, mut bus) = setup(&[0x6c, 0x00, 0x60], 0x0200);
    assert_eq!(cpu.exec(&mut bus), Err(CpuError::UnmappedFetch { addr: 0x6000 }));
    assert_eq!(cpu.reg.PC, 0x0200);
}
