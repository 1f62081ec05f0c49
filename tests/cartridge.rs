use nes::cartridge::{Cartridge, ParseError};

fn image(prg_pages: u8, chr_pages: u8, prg_len: usize, chr_len: usize) -> Vec<u8> {
    let mut d = vec![0x4e, 0x45, 0x53, 0x1a, prg_pages, chr_pages];
    d.extend(vec![0u8; 10]);
    d.extend((0..prg_len).map(|i| (i % 251) as u8));
    d.extend((0..chr_len).map(|i| (i % 241) as u8));
    d
}

#[test]
fn parse_duplicates_single_prg_page() {
    let c = Cartridge::parse_file(&image(1, 1, 0x4000, 0x2000)).unwrap();
    assert_eq!(c.prg_rom.len(), 0x8000);
    assert_eq!(&c.prg_rom[..0x4000], &c.prg_rom[0x4000..]);
    assert_eq!(c.prg_rom[5], 5);
    assert_eq!(c.chr_rom.len(), 0x2000);
    assert_eq!(c.chr_rom[300], (300 % 241) as u8);
}

#[test]
fn parse_keeps_two_prg_pages() {
    let c = Cartridge::parse_file(&image(2, 0, 0x8000, 0)).unwrap();
    assert_eq!(c.prg_rom.len(), 0x8000);
    assert_eq!(c.prg_rom[0x4000], (0x4000 % 251) as u8);
    assert!(c.chr_rom.is_empty());
}

#[test]
fn parse_rejects_bad_magic() {
    let mut d = image(1, 1, 0x4000, 0x2000);
    d[3] = 0x1b;
    assert_eq!(Cartridge::parse_file(&d).err(), Some(ParseError::DamagedHeader));
    assert_eq!(Cartridge::parse_file(&[0x4e, 0x45]).err(), Some(ParseError::DamagedHeader));
    assert_eq!(Cartridge::parse_file(&[]).err(), Some(ParseError::DamagedHeader));
}

#[test]
fn parse_rejects_truncated_prg() {
    let d = image(2, 1, 0x4000, 0);
    assert_eq!(Cartridge::parse_file(&d).err(), Some(ParseError::TruncatedPrg));
}

#[test]
fn parse_rejects_truncated_chr() {
    let d = image(1, 1, 0x4000, 0x1fff);
    assert_eq!(Cartridge::parse_file(&d).err(), Some(ParseError::TruncatedChr));
}
