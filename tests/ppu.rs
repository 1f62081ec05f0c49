use nes::ppu::Ppu;

fn chr_with_tile_one() -> Vec<u8> {
    let mut chr = vec![0u8; 0x2000];
    // tile 1, rows 0 and 1: leftmost pixel has colour index 1
    chr[16] = 0x80;
    chr[17] = 0x80;
    chr
}

fn set_vram_addr(ppu: &mut Ppu, addr: u16) {
    ppu.store(6, (addr >> 8) as u8);
    ppu.store(6, (addr & 0xff) as u8);
}

#[test]
fn palette_mirror_scenario() {
    let mut ppu = Ppu::new(&vec![0u8; 0x2000]);
    ppu.store(6, 0x3f);
    ppu.store(6, 0x10);
    ppu.store(7, 0x2a);
    set_vram_addr(&mut ppu, 0x3f00);
    assert_eq!(ppu.load(7), 0x2a);
    assert_eq!(ppu.palette_table.memory[0x00], 0x2a);
    assert_eq!(ppu.palette_table.memory[0x10], 0x2a);
}

#[test]
fn palette_alias_runs_both_ways() {
    let mut ppu = Ppu::new(&vec![0u8; 0x2000]);
    set_vram_addr(&mut ppu, 0x3f04);
    ppu.store(7, 0x11);
    assert_eq!(ppu.palette_table.memory[0x14], 0x11);
    set_vram_addr(&mut ppu, 0x3f05);
    ppu.store(7, 0x22);
    assert_eq!(ppu.palette_table.memory[0x15], 0x00);
}

#[test]
fn sprite_zero_hit_scenario() {
    let mut ppu = Ppu::new(&chr_with_tile_one());
    // background tile 1 at screen cell (4, 8), covering pixel (32, 65)
    set_vram_addr(&mut ppu, 0x2000 + 8 * 32 + 4);
    ppu.store(7, 0x01);
    // OAM[0] = (y = 64, tile = 1, attr = 0, x = 32)
    ppu.store(3, 0);
    for b in [64u8, 0x01, 0x00, 32] {
        ppu.store(4, b);
    }
    ppu.store(1, 0x18);
    for _ in 0..64 * 341 {
        ppu.exec();
    }
    assert_eq!(ppu.scanline, 64);
    assert_eq!(ppu.reg_status.to_u8() & 0x40, 0);
    for _ in 0..341 {
        ppu.exec();
    }
    assert_eq!(ppu.scanline, 65);
    assert_eq!(ppu.cycles_in_line, 0);
    assert_eq!(ppu.reg_status.to_u8() & 0x40, 0x40);
}

#[test]
fn new_frame_once_per_frame_of_dots() {
    let mut ppu = Ppu::new(&vec![0u8; 0x2000]);
    let mut frames = 0;
    let mut nmis = 0;
    ppu.store(0, 0x80);
    for _ in 0..262 * 341 {
        let r = ppu.exec();
        if r.new_frame {
            frames += 1;
        }
        if r.vblank_nmi {
            nmis += 1;
        }
    }
    assert_eq!(frames, 1);
    assert_eq!(nmis, 1);
    for _ in 0..262 * 341 {
        if ppu.exec().new_frame {
            frames += 1;
        }
    }
    assert_eq!(frames, 2);
}

#[test]
fn status_read_clears_vblank_and_latch() {
    let mut ppu = Ppu::new(&vec![0u8; 0x2000]);
    for _ in 0..240 * 341 {
        ppu.exec();
    }
    ppu.store(6, 0x21);
    assert_eq!(ppu.load(2) & 0x80, 0x80);
    assert_eq!(ppu.load(2) & 0x80, 0x00);
    // the pending high byte was dropped: these two writes form 0x3F00
    ppu.store(6, 0x3f);
    ppu.store(6, 0x00);
    assert_eq!(ppu.vram_addr, 0x3f00);
}

#[test]
fn ppudata_reads_are_buffered_below_palette() {
    let mut ppu = Ppu::new(&vec![0u8; 0x2000]);
    set_vram_addr(&mut ppu, 0x2005);
    ppu.store(7, 0x77);
    set_vram_addr(&mut ppu, 0x2005);
    assert_eq!(ppu.load(7), 0x00);
    set_vram_addr(&mut ppu, 0x2005);
    assert_eq!(ppu.load(7), 0x77);
    assert_eq!(ppu.vram_addr, 0x2006);
}

#[test]
fn ppudata_stride_of_32() {
    let mut ppu = Ppu::new(&vec![0u8; 0x2000]);
    ppu.store(0, 0x04);
    set_vram_addr(&mut ppu, 0x2000);
    ppu.store(7, 1);
    assert_eq!(ppu.vram_addr, 0x2020);
}

#[test]
fn vertical_mirroring_pairs_columns() {
    let mut ppu = Ppu::new(&vec![0u8; 0x2000]);
    set_vram_addr(&mut ppu, 0x2003);
    ppu.store(7, 0x5c);
    set_vram_addr(&mut ppu, 0x2803);
    ppu.load(7);
    assert_eq!(ppu.load(7), 0x5c);
}

#[test]
fn oamdata_write_moves_address() {
    let mut ppu = Ppu::new(&vec![0u8; 0x2000]);
    ppu.store(3, 0xff);
    ppu.store(4, 9);
    assert_eq!(ppu.oam_data[0xff], 9);
    assert_eq!(ppu.oam_addr, 0);
    ppu.store(3, 0xff);
    assert_eq!(ppu.load(4), 9);
}

#[test]
fn rendered_line_uses_universal_background() {
    let mut ppu = Ppu::new(&vec![0u8; 0x2000]);
    set_vram_addr(&mut ppu, 0x3f00);
    ppu.store(7, 0x01);
    for _ in 0..2 * 341 {
        ppu.exec();
    }
    let buf = ppu.get_buffer();
    assert_eq!(buf.len(), 256 * 240 * 3);
    // line 1 was drawn in master colour 1: (0, 0, 252)
    let i = 3 * 256;
    assert_eq!(&buf[i..i + 3], &[0, 0, 252]);
}

#[test]
fn scroll_and_address_share_one_write_latch() {
    let mut ppu = Ppu::new(&vec![0u8; 0x2000]);
    ppu.store(5, 0x21);
    ppu.store(6, 0x08);
    assert_eq!(ppu.vram_addr, 0x2108);
    ppu.store(0, 0x00);
    ppu.store(5, 0x10);
    ppu.store(1, 0x18);
    ppu.store(5, 0x20);
    assert_eq!(ppu.scroll, (0x10, 0x20));
}
