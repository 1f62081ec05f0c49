use nes::apu::Apu;
use nes::bus::{Bus, BusFault};
use nes::cartridge::Cartridge;
use nes::dma::Dma;
use nes::joypad::{JoyPad, Key, KeyState};
use nes::memory::Memory;
use nes::ppu::Ppu;

fn make_bus() -> Bus {
    let cartridge = Cartridge { prg_rom: (0..0x8000u32).map(|i| (i % 256) as u8).collect(), chr_rom: vec![0; 0x2000] };
    let ppu = Ppu::from_cartridge(&cartridge);
    Bus::new(cartridge, Memory::new(), ppu, Apu::new(), JoyPad::new(), Dma::new())
}

#[test]
fn wram_is_mirrored_four_times() {
    let mut bus = make_bus();
    bus.store(0x0001, 0x42);
    assert_eq!(bus.load(0x0801), 0x42);
    assert_eq!(bus.load(0x1001), 0x42);
    assert_eq!(bus.load(0x1801), 0x42);
    bus.store(0x1fff, 0x17);
    assert_eq!(bus.load(0x07ff), 0x17);
}

#[test]
fn ppu_registers_are_mirrored() {
    let mut bus = make_bus();
    bus.store(0x3ffe, 0x3f);
    bus.store(0x200e, 0x00);
    bus.store(0x2f0f, 0x21);
    assert_eq!(bus.ppu.palette_table.memory[0], 0x21);
    bus.store(0x3ffe, 0x3f);
    bus.store(0x2006, 0x00);
    assert_eq!(bus.load(0x3fff), 0x21);
}

#[test]
fn dma_timing_scenario() {
    let mut bus = make_bus();
    for x in 0..256u16 {
        bus.store(0x0200 + x, 0xab);
    }
    bus.store(0x4014, 0x02);
    assert_eq!(bus.dma.high, Some(0x02));
    let stolen = bus.dma.transfer(&bus.wram, &mut bus.ppu);
    assert_eq!(stolen, 514);
    assert!(bus.ppu.oam_data.iter().all(|b| *b == 0xab));
    assert_eq!(bus.ppu.oam_data.len(), 256);
    assert_eq!(bus.dma.transfer(&bus.wram, &mut bus.ppu), 0);
}

#[test]
fn dma_starts_at_oam_address() {
    let mut bus = make_bus();
    for x in 0..256u16 {
        bus.store(0x0300 + x, x as u8);
    }
    bus.store(0x2003, 0x10);
    bus.store(0x4014, 0x03);
    bus.dma.transfer(&bus.wram, &mut bus.ppu);
    assert_eq!(bus.ppu.oam_data[0x10], 0);
    assert_eq!(bus.ppu.oam_data[0x0f], 0xff);
    assert_eq!(bus.ppu.oam_addr, 0x10);
}

#[test]
fn store_w_load_w_round_trip() {
    let mut bus = make_bus();
    bus.store_w(0x0123, 0xbeef);
    assert_eq!(bus.load(0x0123), 0xef);
    assert_eq!(bus.load(0x0124), 0xbe);
    assert_eq!(bus.load_w(0x0123), 0xbeef);
    bus.store_w(0x02ff, 0x1234);
    assert_eq!(bus.load(0x0200), 0x12);
    assert_eq!(bus.load(0x0300), 0x00);
    assert_eq!(bus.load_w(0x02ff), 0x1234);
}

#[test]
fn prg_rom_is_read_from_0x8000() {
    let mut bus = make_bus();
    assert_eq!(bus.load(0x8005), 5);
    assert_eq!(bus.load(0xffff), 0xff);
    assert_eq!(bus.fault, None);
}

#[test]
fn unmapped_access_is_a_fault() {
    let mut bus = make_bus();
    assert_eq!(bus.load(0x5000), 0);
    assert_eq!(bus.fault, Some(BusFault::UnmappedLoad(0x5000)));
    let mut bus = make_bus();
    bus.store(0x8000, 1);
    assert_eq!(bus.fault, Some(BusFault::UnmappedStore(0x8000)));
}

#[test]
fn joypad_shifts_out_keys() {
    let mut bus = make_bus();
    let mut keys = KeyState::default();
    keys.press(Key::A);
    keys.press(Key::Start);
    keys.press(Key::Left);
    keys.release(Key::Left);
    bus.joypad.set_key_state(keys);
    bus.store(0x4016, 1);
    bus.store(0x4016, 0);
    let bits: Vec<u8> = (0..8).map(|_| bus.load(0x4016)).collect();
    assert_eq!(bits, vec![1, 0, 0, 1, 0, 0, 0, 0]);
}

#[test]
fn joypad_strobe_keeps_reloading() {
    let mut pad = JoyPad::new();
    pad.press(Key::B);
    pad.store(1);
    assert_eq!(pad.load(), 0);
    assert_eq!(pad.load(), 0);
    pad.release(Key::B);
    pad.press(Key::A);
    pad.store(1);
    assert_eq!(pad.load(), 1);
}

#[test]
fn apu_registers_through_the_bus() {
    let mut bus = make_bus();
    bus.store(0x4017, 0x80);
    assert!(bus.apu.pulse2.frame_counter.is_half_frame());
    bus.store(0x4002, 0x34);
    assert_eq!(bus.apu.pulse1.timer.period, 0x34);
    assert_eq!(bus.load(0x4015), 0);
}
