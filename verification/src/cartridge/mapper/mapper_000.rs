//! Mapper 0 (NROM): a fixed PRG window at $8000-$FFFF over one or two 16-KiB
//! banks, PRG-RAM at $6000-$7FFF, and an identity CHR mapping.

use vstd::prelude::*;

verus! {

use super::super::Mirroring;
use super::{MappedRead, MappedWrite, Mapper};

#[derive(Clone, Copy, Debug, PartialEq, Eq, Structural)]
pub struct Mapper000 {
    pub prg_banks: u8,
    pub chr_banks: u8,
    pub mirroring: Mirroring,
}

impl Mapper000 {
    /// Bank counts are taken from the region sizes; the mirroring is fixed
    /// from the iNES header for the life of the cartridge.
    pub fn new(prg_rom_size: usize, chr_rom_size: usize, mirroring: Mirroring) -> (r: Mapper000)
        ensures
            r.prg_banks == prg_rom_size / 16384 % 256,
            r.chr_banks == chr_rom_size / 8192 % 256,
            r.mirroring == mirroring,
    {
        Mapper000 {
            prg_banks: (prg_rom_size / 16384 % 256) as u8,
            chr_banks: (chr_rom_size / 8192 % 256) as u8,
            mirroring,
        }
    }
}

impl Mapper for Mapper000 {
    open spec fn cpu_read_spec(&self, address: u16) -> MappedRead {
        if 0x6000 <= address <= 0x7FFF {
            MappedRead::PrgRam((address - 0x6000) as u16)
        } else if 0x8000 <= address {
            if self.prg_banks > 1 {
                MappedRead::PrgRom((address - 0x8000) as usize)
            } else {
                MappedRead::PrgRom((((address - 0x8000) as u16) & 0x3FFF) as usize)
            }
        } else {
            MappedRead::OpenBus
        }
    }

    open spec fn cpu_write_state_spec(&self, address: u16, value: u8) -> Mapper000 {
        *self
    }

    open spec fn cpu_write_spec(&self, address: u16, value: u8) -> MappedWrite {
        if 0x6000 <= address <= 0x7FFF {
            MappedWrite::PrgRam((address - 0x6000) as u16)
        } else {
            MappedWrite::Ignored
        }
    }

    open spec fn ppu_read_spec(&self, address: u16) -> usize {
        address as usize
    }

    open spec fn ppu_write_spec(&self, address: u16, value: u8) -> Option<usize> {
        if self.chr_banks == 0 {
            Some(address as usize)
        } else {
            None
        }
    }

    open spec fn mirroring_spec(&self) -> Mirroring {
        self.mirroring
    }

    fn cpu_read(&mut self, address: u16) -> (r: MappedRead) {
        if 0x6000 <= address && address <= 0x7FFF {
            MappedRead::PrgRam(address - 0x6000)
        } else if 0x8000 <= address {
            if self.prg_banks > 1 {
                MappedRead::PrgRom((address - 0x8000) as usize)
            } else {
                MappedRead::PrgRom(((address - 0x8000) & 0x3FFF) as usize)
            }
        } else {
            MappedRead::OpenBus
        }
    }

    fn cpu_write(&mut self, address: u16, value: u8) -> (r: MappedWrite) {
        if 0x6000 <= address && address <= 0x7FFF {
            MappedWrite::PrgRam(address - 0x6000)
        } else {
            MappedWrite::Ignored
        }
    }

    fn ppu_read(&mut self, address: u16) -> (r: usize) {
        address as usize
    }

    fn ppu_write(&mut self, address: u16, value: u8) -> (r: Option<usize>) {
        if self.chr_banks == 0 {
            Some(address as usize)
        } else {
            None
        }
    }

    fn mirroring(&self) -> (r: Mirroring) {
        self.mirroring
    }
}

} // verus!
