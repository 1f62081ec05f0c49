use vstd::prelude::*;

verus! {

/// Bytes in one PRG-ROM page.
pub const PRG_ROM_PAGE_UNIT: usize = 16384;
/// Bytes in one CHR-ROM page.
pub const CHR_ROM_PAGE_UNIT: usize = 8192;
/// Bytes in the iNES header.
pub const HEADER_LENGTH: usize = 16;

/// Why an iNES image was refused.
#[derive(Debug, Clone, Copy, PartialEq, Eq, Structural)]
pub enum ParseError {
    /// missing "NES\x1A" magic, or fewer than 16 header bytes
    DamagedHeader,
    /// the image ends inside the PRG-ROM pages
    TruncatedPrg,
    /// the image ends inside the CHR-ROM pages
    TruncatedChr,
}

/// The four magic bytes "NES\x1A".
pub open spec fn has_magic(d: Seq<u8>) -> bool {
    d.len() >= 4 && d[0] == 0x4e && d[1] == 0x45 && d[2] == 0x53 && d[3] == 0x1a
}

/// PRG-ROM bytes announced by the header.
pub open spec fn prg_len(d: Seq<u8>) -> int {
    d[4] * 16384
}

/// CHR-ROM bytes announced by the header.
pub open spec fn chr_len(d: Seq<u8>) -> int {
    d[5] * 8192
}

/// The outcome of parsing image `d`: the error, or PRG-ROM and CHR-ROM. A single
/// PRG page is repeated to fill 32 KiB.
pub open spec fn parse_spec(d: Seq<u8>) -> Result<(Seq<u8>, Seq<u8>), ParseError> {
    if d.len() < 16 || !has_magic(d) {
        Err(ParseError::DamagedHeader)
    } else if d.len() < 16 + prg_len(d) {
        Err(ParseError::TruncatedPrg)
    } else if d.len() < 16 + prg_len(d) + chr_len(d) {
        Err(ParseError::TruncatedChr)
    } else {
        let prg = d.subrange(16, 16 + prg_len(d));
        let chr = d.subrange(16 + prg_len(d), 16 + prg_len(d) + chr_len(d));
        Ok((if d[4] == 1 { prg + prg } else { prg }, chr))
    }
}

/// A cartridge: the ROM seen by the CPU and the ROM seen by the PPU.
pub struct Cartridge {
    /// rom connected to cpu
    pub prg_rom: Vec<u8>,
    /// rom connected to ppu
    pub chr_rom: Vec<u8>,
}

/// Appends `d[start .. start + len]` to `out`.
fn append_range(out: &mut Vec<u8>, d: &[u8], start: usize, len: usize)
    requires
        start + len <= d@.len(),
    ensures
        final(out)@ == old(out)@ + d@.subrange(start as int, start + len),
{
    let ghost init = out@;
    let n = d.len();
    let mut i: usize = 0;
    while i < len
        invariant
            n == d@.len(),
            i <= len,
            start + len <= d@.len(),
            out@ == init + d@.subrange(start as int, start + i),
        decreases len - i,
    {
        out.push(d[start + i]);
        proof {
            assert(d@.subrange(start as int, start + i + 1) =~= d@.subrange(start as int, start + i).push(
                d@[start + i],
            ));
        }
        i = i + 1;
    }
}

impl Cartridge {
    /// Parses an iNES image.
    pub fn parse_file(d: &[u8]) -> (r: Result<Cartridge, ParseError>)
        ensures
            match parse_spec(d@) {
                Ok((prg, chr)) => r matches Ok(c) && c.prg_rom@ == prg && c.chr_rom@ == chr,
                Err(e) => r == Err::<Cartridge, ParseError>(e),
            },
    {
        if d.len() < HEADER_LENGTH || !(d[0] == 0x4e && d[1] == 0x45 && d[2] == 0x53 && d[3] == 0x1a) {
            return Err(ParseError::DamagedHeader);
        }
        let prg_pages = d[4] as usize;
        let chr_pages = d[5] as usize;
        let prg = prg_pages * PRG_ROM_PAGE_UNIT;
        let chr = chr_pages * CHR_ROM_PAGE_UNIT;
        if d.len() - HEADER_LENGTH < prg {
            return Err(ParseError::TruncatedPrg);
        }
        if d.len() - HEADER_LENGTH - prg < chr {
            return Err(ParseError::TruncatedChr);
        }
        let mut prg_rom: Vec<u8> = Vec::new();
        append_range(&mut prg_rom, d, HEADER_LENGTH, prg);
        if prg_pages == 1 {
            append_range(&mut prg_rom, d, HEADER_LENGTH, prg);
        }
        let mut chr_rom: Vec<u8> = Vec::new();
        append_range(&mut chr_rom, d, HEADER_LENGTH + prg, chr);
        proof {
            assert(Seq::<u8>::empty() + d@.subrange(16, 16 + prg) =~= d@.subrange(16, 16 + prg));
            assert(Seq::<u8>::empty() + d@.subrange(16 + prg, 16 + prg + chr) =~= d@.subrange(
                16 + prg,
                16 + prg + chr,
            ));
        }
        Ok(Cartridge { prg_rom, chr_rom })
    }
}

} // verus!
