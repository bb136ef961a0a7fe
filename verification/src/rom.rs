//! The iNES-1.0 cartridge container: header checks and the split
//! into program ROM and character ROM.

use vstd::prelude::*;

verus! {

/// How the PPU sees the name tables aliased across banks.
#[derive(Clone, Copy, PartialEq, Eq, Structural, Debug)]
pub enum Mirroring {
    Vertical,
    Horizontal,
    FourScreen,
}

/// Why a byte stream is rejected as a cartridge.
#[derive(Clone, Copy, PartialEq, Eq, Structural, Debug)]
pub enum RomError {
    /// The file does not start with the iNES magic.
    NotInes,
    /// The header says iNES version 2, which is not supported.
    Ines2NotSupported,
}

impl RomError {
    /// A human-readable description of the failure.
    pub fn message(&self) -> String {
        match self {
            RomError::NotInes => "File is not in iNES format".to_string(),
            RomError::Ines2NotSupported => "iNES 2.0 is not supported".to_string(),
        }
    }
}

/// A parsed cartridge.
#[derive(Debug)]
pub struct Rom {
    /// Program ROM, mapped into CPU space at 0x8000 and up.
    pub prg_rom: Vec<u8>,
    /// Character ROM, read by the PPU.
    pub chr_rom: Vec<u8>,
    /// The mapper number from the header nibbles.
    pub mapper: u8,
    /// The name-table mirroring the header asks for.
    pub screen_mirroring: Mirroring,
}

/// The first three header bytes spell "NES".
pub open spec fn rom_magic_ok(b: Seq<u8>) -> bool {
    b[0] == 0x4E && b[1] == 0x45 && b[2] == 0x53
}

/// Header bits 2-3 of byte 7 give the iNES version; only version 0
/// is accepted.
pub open spec fn rom_version_ok(b: Seq<u8>) -> bool {
    (b[7] as u8 >> 2) & 0b11 == 0
}

/// Whether the header announces a 512-byte trainer before the
/// program ROM.
pub open spec fn rom_has_trainer(b: Seq<u8>) -> bool {
    b[6] as u8 & 0b100 != 0
}

/// Where the program ROM starts in the file.
pub open spec fn rom_prg_start(b: Seq<u8>) -> int {
    if rom_has_trainer(b) {
        528
    } else {
        16
    }
}

/// Program-ROM length in bytes: header byte 4 counts 16 KiB units.
pub open spec fn rom_prg_size(b: Seq<u8>) -> int {
    b[4] * 0x4000
}

/// Character-ROM length in bytes: header byte 5 counts 8 KiB units.
pub open spec fn rom_chr_size(b: Seq<u8>) -> int {
    b[5] * 0x2000
}

/// The mapper number assembled from the high nibbles of header
/// bytes 7 and 6.
pub open spec fn rom_mapper(b: Seq<u8>) -> u8 {
    (b[7] as u8 & 0xF0) | (b[6] as u8 >> 4)
}

/// The mirroring the header asks for: bit 3 of byte 6 selects
/// four-screen layout, bit 0 selects vertical over horizontal.
pub open spec fn rom_mirroring(b: Seq<u8>) -> Mirroring {
    if b[6] as u8 & 0b1000 != 0 {
        Mirroring::FourScreen
    } else if b[6] as u8 & 0b0001 != 0 {
        Mirroring::Vertical
    } else {
        Mirroring::Horizontal
    }
}

/// A copy of `v[start .. start + len]`.
fn copy_range(v: &Vec<u8>, start: usize, len: usize) -> (r: Vec<u8>)
    requires
        start + len <= v@.len(),
    ensures
        r@ == v@.subrange(start as int, start as int + len as int),
{
    let mut r: Vec<u8> = Vec::new();
    let vlen = v.len();
    let mut i: usize = 0;
    while i < len
        invariant
            i <= len,
            start + len <= vlen,
            vlen == v@.len(),
            r@.len() == i,
            forall|j: int| 0 <= j < i ==> r@[j] == v@[start + j],
        decreases len - i,
    {
        r.push(v[start + i]);
        i = i + 1;
    }
    proof {
        assert(r@ =~= v@.subrange(start as int, start as int + len as int));
    }
    r
}

impl Rom {
    /// Parses an iNES-1.0 file: checks the magic and the version,
    /// then slices out program ROM and character ROM.
    ///
    /// The caller provides a buffer long enough for the sizes its
    /// header announces; shorter input is excluded by precondition.
    pub fn parse(bytes: &Vec<u8>) -> (r: Result<Rom, RomError>)
        requires
            bytes@.len() >= 16,
            rom_magic_ok(bytes@) && rom_version_ok(bytes@) ==> bytes@.len() >= rom_prg_start(
                bytes@,
            ) + rom_prg_size(bytes@) + rom_chr_size(bytes@),
        ensures
            match r {
                Ok(rom) => {
                    &&& rom_magic_ok(bytes@)
                    &&& rom_version_ok(bytes@)
                    &&& rom.prg_rom@ == bytes@.subrange(
                        rom_prg_start(bytes@),
                        rom_prg_start(bytes@) + rom_prg_size(bytes@),
                    )
                    &&& rom.chr_rom@ == bytes@.subrange(
                        rom_prg_start(bytes@) + rom_prg_size(bytes@),
                        rom_prg_start(bytes@) + rom_prg_size(bytes@) + rom_chr_size(bytes@),
                    )
                    &&& rom.mapper == rom_mapper(bytes@)
                    &&& rom.screen_mirroring == rom_mirroring(bytes@)
                },
                Err(RomError::NotInes) => !rom_magic_ok(bytes@),
                Err(RomError::Ines2NotSupported) => rom_magic_ok(bytes@) && !rom_version_ok(
                    bytes@,
                ),
            },
    {
        if !(bytes[0] == 0x4E && bytes[1] == 0x45 && bytes[2] == 0x53) {
            return Err(RomError::NotInes);
        }
        let mapper = (bytes[7] & 0xF0) | (bytes[6] >> 4);
        let ines_version = (bytes[7] >> 2) & 0b11;
        if ines_version != 0 {
            return Err(RomError::Ines2NotSupported);
        }
        let screen_mirroring = if bytes[6] & 0b1000 != 0 {
            Mirroring::FourScreen
        } else if bytes[6] & 0b0001 != 0 {
            Mirroring::Vertical
        } else {
            Mirroring::Horizontal
        };
        let prg_rom_size = bytes[4] as usize * 0x4000;
        let chr_rom_size = bytes[5] as usize * 0x2000;
        let skip_trainer = bytes[6] & 0b100 != 0;
        let prg_rom_start: usize = if skip_trainer {
            528
        } else {
            16
        };
        let chr_rom_start = prg_rom_start + prg_rom_size;
        let prg_rom = copy_range(bytes, prg_rom_start, prg_rom_size);
        let chr_rom = copy_range(bytes, chr_rom_start, chr_rom_size);
        Ok(Rom { prg_rom, chr_rom, mapper, screen_mirroring })
    }
}

} // verus!
