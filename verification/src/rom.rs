//! A plain view of an iNES 1.0 image: the PRG and CHR regions, the mapper
//! number, and the screen mirroring, without any banking logic.

use vstd::prelude::*;

verus! {

use vstd::string::StringExecFns;

use crate::cartridge::copy_range;

/// The nametable arrangement the header announces.
#[derive(Clone, Copy, Debug, PartialEq, Eq, Structural)]
pub enum Mirroring {
    Vertical,
    Horizontal,
    FourScreen,
}

pub struct Rom {
    pub prg_rom: Vec<u8>,
    pub chr_rom: Vec<u8>,
    pub mapper: u8,
    pub screen_mirroring: Mirroring,
}

/// The mirroring selected by header byte 6: bit 3 forces four-screen, else
/// bit 0 picks vertical over horizontal.
pub open spec fn rom_mirroring_of_flags(flags_6: u8) -> Mirroring {
    if flags_6 & 0x08 != 0 {
        Mirroring::FourScreen
    } else if flags_6 & 0x01 != 0 {
        Mirroring::Vertical
    } else {
        Mirroring::Horizontal
    }
}

impl Rom {
    /// Whether the image opens with "NES" and the MS-DOS end-of-file byte.
    pub open spec fn magic_ok(raw: Seq<u8>) -> bool {
        raw[0] == 0x4E && raw[1] == 0x45 && raw[2] == 0x53 && raw[3] == 0x1A
    }

    /// The iNES version field: header byte 7, bits 2 and 3.
    pub open spec fn version_spec(raw: Seq<u8>) -> u8 {
        ((raw[7] >> 2) & 0x03) as u8
    }

    /// Where the PRG-ROM region starts.
    pub open spec fn prg_start_spec(raw: Seq<u8>) -> int {
        if raw[6] & 0x04 != 0 {
            528int
        } else {
            16int
        }
    }

    /// Whether the image is long enough for the regions its header promises.
    pub open spec fn regions_fit(raw: Seq<u8>) -> bool {
        Self::prg_start_spec(raw) + raw[4] as int * 16384 + raw[5] as int * 8192 <= raw.len()
    }

    /// Accepts exactly the images that are at least a header long, carry the
    /// iNES magic, are version 0, and hold the promised PRG and CHR regions.
    pub fn new(raw: &[u8]) -> (r: Result<Rom, String>)
        ensures
            r is Ok <==> raw@.len() >= 16 && Self::magic_ok(raw@) && Self::version_spec(raw@) == 0
                && Self::regions_fit(raw@),
            r matches Ok(rom) ==> {
                &&& rom.prg_rom@ == raw@.subrange(
                    Self::prg_start_spec(raw@),
                    Self::prg_start_spec(raw@) + raw@[4] as int * 16384,
                )
                &&& rom.chr_rom@ == raw@.subrange(
                    Self::prg_start_spec(raw@) + raw@[4] as int * 16384,
                    Self::prg_start_spec(raw@) + raw@[4] as int * 16384 + raw@[5] as int * 8192,
                )
                &&& rom.mapper == ((raw@[7] & 0xF0) | (raw@[6] >> 4))
                &&& rom.screen_mirroring == rom_mirroring_of_flags(raw@[6])
            },
    {
        if raw.len() < 16 {
            return Err(String::from_str("File is not in iNES file format"));
        }
        if !(raw[0] == 0x4E && raw[1] == 0x45 && raw[2] == 0x53 && raw[3] == 0x1A) {
            return Err(String::from_str("File is not in iNES file format"));
        }

        let version: u8 = (raw[7] >> 2) & 0x03;
        if version != 0 {
            return Err(String::from_str("Unsupported iNES version"));
        }

        let skip_trainer = raw[6] & 0x04 != 0;

        let prg_rom_size: usize = raw[4] as usize * 16384;
        let prg_rom_start: usize = if skip_trainer {
            528
        } else {
            16
        };
        let chr_rom_size: usize = raw[5] as usize * 8192;
        let chr_rom_start: usize = prg_rom_start + prg_rom_size;

        if raw.len() < chr_rom_start + chr_rom_size {
            return Err(String::from_str("File is shorter than its header promises"));
        }

        let mapper: u8 = (raw[7] & 0xF0) | (raw[6] >> 4);

        let nametable_arrangement = raw[6] & 0x01 != 0;
        let alternative_nametable_layout = raw[6] & 0x08 != 0;
        let screen_mirroring = if alternative_nametable_layout {
            Mirroring::FourScreen
        } else if nametable_arrangement {
            Mirroring::Vertical
        } else {
            Mirroring::Horizontal
        };

        Ok(
            Rom {
                prg_rom: copy_range(raw, prg_rom_start, prg_rom_size),
                chr_rom: copy_range(raw, chr_rom_start, chr_rom_size),
                mapper,
                screen_mirroring,
            },
        )
    }
}

} // verus!
