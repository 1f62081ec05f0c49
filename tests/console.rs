use nes::cpu::CpuError;
use nes::{Cartridge, KeyState, Nes, NesError};

/// A 16 KiB NROM image holding `program` at 0xC000 (and 0x8000), with the
/// reset vector at 0xC000 and the NMI vector at `nmi`.
fn rom(program: &[u8], nmi_handler: &[u8]) -> Vec<u8> {
    let mut d = vec![0x4e, 0x45, 0x53, 0x1a, 1, 1];
    d.extend(vec![0u8; 10]);
    let mut prg = vec![0xeau8; 0x4000];
    prg[..program.len()].copy_from_slice(program);
    prg[0x100..0x100 + nmi_handler.len()].copy_from_slice(nmi_handler);
    prg[0x3ffa] = 0x00;
    prg[0x3ffb] = 0xc1;
    prg[0x3ffc] = 0x00;
    prg[0x3ffd] = 0xc0;
    d.extend(prg);
    d.extend(vec![0u8; 0x2000]);
    d
}

#[test]
fn frame_runs_to_the_end() {
    let cart = Cartridge::parse_file(&rom(&[0x4c, 0x00, 0xc0], &[0x40])).unwrap();
    let mut nes = Nes::with_cartridge(cart);
    assert_eq!(nes.cpu.reg.PC, 0xc000);
    assert_eq!(nes.next_frame(KeyState::default()), Ok(()));
    assert_eq!(nes.get_frame_buffer().len(), 256 * 240 * 3);
    let samples = nes.consume_audio_buffer();
    assert!(samples.len() > 700 && samples.len() < 760, "{}", samples.len());
    assert!(nes.consume_audio_buffer().is_empty());
}

#[test]
fn nmi_runs_once_per_frame() {
    // LDA #$80; STA $2000; JMP $C005 -- the handler: INC $10; RTI
    let cart = Cartridge::parse_file(&rom(
        &[0xa9, 0x80, 0x8d, 0x00, 0x20, 0x4c, 0x05, 0xc0],
        &[0xe6, 0x10, 0x40],
    ))
    .unwrap();
    let mut nes = Nes::with_cartridge(cart);
    nes.next_frame(KeyState::default()).unwrap();
    assert_eq!(nes.bus.wram.cells[0x10], 1);
    nes.next_frame(KeyState::default()).unwrap();
    assert_eq!(nes.bus.wram.cells[0x10], 2);
}

#[test]
fn keys_reach_the_controller() {
    // LDA #1; STA $4016; LDA #0; STA $4016; LDA $4016; STA $20; JMP
    let cart = Cartridge::parse_file(&rom(
        &[0xa9, 0x01, 0x8d, 0x16, 0x40, 0xa9, 0x00, 0x8d, 0x16, 0x40, 0xad, 0x16, 0x40, 0x85, 0x20, 0x4c, 0x0f, 0xc0],
        &[0x40],
    ))
    .unwrap();
    let mut nes = Nes::with_cartridge(cart);
    nes.next_frame(KeyState(0x01)).unwrap();
    assert_eq!(nes.bus.joypad.key_state, KeyState(0x01));
    assert_eq!(nes.bus.wram.cells[0x20], 1);
}

#[test]
fn unknown_opcode_ends_the_frame_early() {
    let cart = Cartridge::parse_file(&rom(&[0x02], &[0x40])).unwrap();
    let mut nes = Nes::with_cartridge(cart);
    assert_eq!(
        nes.next_frame(KeyState::default()),
        Err(NesError::Cpu(CpuError::UnknownOpcode { code: 0x02, pc: 0xc000 }))
    );
}
