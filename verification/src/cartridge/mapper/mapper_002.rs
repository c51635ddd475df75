//! Mapper 2 (UxROM): a selectable 16-KiB PRG bank at $8000-$BFFF, the last
//! bank fixed at $C000-$FFFF, and bank select latched by any PRG-space write.

use vstd::prelude::*;

verus! {

use super::super::Mirroring;
use super::{MappedRead, MappedWrite, Mapper};

/// The bank-select mask: one less than the bank count rounded up to a power
/// of two, obtained by smearing the high bit of `banks - 1` downwards.
pub open spec fn bank_mask_spec(banks: u8) -> u8 {
    if banks == 0 {
        0u8
    } else {
        let m0 = (banks - 1) as u8;
        let m1 = (m0 | (m0 >> 1)) as u8;
        let m2 = (m1 | (m1 >> 2)) as u8;
        (m2 | (m2 >> 4)) as u8
    }
}

/// One less than the bank count rounded up to a power of two.
fn bank_mask_for(banks: u8) -> (r: u8)
    ensures
        r == bank_mask_spec(banks),
{
    if banks == 0 {
        return 0;
    }
    let m0: u8 = banks - 1;
    let m1: u8 = m0 | (m0 >> 1);
    let m2: u8 = m1 | (m1 >> 2);
    m2 | (m2 >> 4)
}

#[derive(Clone, Copy, Debug, PartialEq, Eq, Structural)]
pub struct Mapper002 {
    pub prg_banks: u8,
    pub chr_banks: u8,
    pub mirroring: Mirroring,
    pub prg_bank_select: u8,
    pub bank_mask: u8,
}

impl Mapper002 {
    pub fn new(prg_rom_size: usize, chr_rom_size: usize, mirroring: Mirroring) -> (r: Mapper002)
        ensures
            r.prg_banks == prg_rom_size / 16384 % 256,
            r.chr_banks == chr_rom_size / 8192 % 256,
            r.mirroring == mirroring,
            r.prg_bank_select == 0,
            r.bank_mask == bank_mask_spec((prg_rom_size / 16384 % 256) as u8),
    {
        let prg_banks: u8 = (prg_rom_size / 16384 % 256) as u8;
        let chr_banks: u8 = (chr_rom_size / 8192 % 256) as u8;
        let bank_mask = bank_mask_for(prg_banks);

        Mapper002 {
            prg_banks,
            chr_banks,
            mirroring,
            prg_bank_select: 0,
            bank_mask,
        }
    }
}

impl Mapper for Mapper002 {
    open spec fn cpu_read_spec(&self, address: u16) -> MappedRead {
        if 0x8000 <= address <= 0xBFFF {
            MappedRead::PrgRom((self.prg_bank_select * 0x4000 + (address - 0x8000)) as usize)
        } else if 0xC000 <= address {
            if self.prg_banks >= 1 {
                MappedRead::PrgRom(((self.prg_banks - 1) * 0x4000 + (address - 0xC000)) as usize)
            } else {
                MappedRead::OpenBus
            }
        } else {
            MappedRead::OpenBus
        }
    }

    open spec fn cpu_write_state_spec(&self, address: u16, value: u8) -> Mapper002 {
        if 0x8000 <= address {
            Mapper002 { prg_bank_select: (value & self.bank_mask) as u8, ..*self }
        } else {
            *self
        }
    }

    open spec fn cpu_write_spec(&self, address: u16, value: u8) -> MappedWrite {
        MappedWrite::Ignored
    }

    open spec fn ppu_read_spec(&self, address: u16) -> usize {
        address as usize
    }

    open spec fn ppu_write_spec(&self, address: u16, value: u8) -> Option<usize> {
        if self.chr_banks == 0 {
            Some(address as usize)
        } else {
            None
        }
    }

    open spec fn mirroring_spec(&self) -> Mirroring {
        self.mirroring
    }

    fn cpu_read(&mut self, address: u16) -> (r: MappedRead) {
        if 0x8000 <= address && address <= 0xBFFF {
            let rom_addr: usize = (self.prg_bank_select as usize) * 0x4000 + (address - 0x8000)
                as usize;
            MappedRead::PrgRom(rom_addr)
        } else if 0xC000 <= address {
            if self.prg_banks >= 1 {
                let rom_addr: usize = ((self.prg_banks - 1) as usize) * 0x4000 + (address - 0xC000)
                    as usize;
                MappedRead::PrgRom(rom_addr)
            } else {
                MappedRead::OpenBus
            }
        } else {
            MappedRead::OpenBus
        }
    }

    fn cpu_write(&mut self, address: u16, value: u8) -> (r: MappedWrite) {
        if 0x8000 <= address {
            self.prg_bank_select = value & self.bank_mask;
        }
        MappedWrite::Ignored
    }

    fn ppu_read(&mut self, address: u16) -> (r: usize) {
        address as usize
    }

    fn ppu_write(&mut self, address: u16, value: u8) -> (r: Option<usize>) {
        if self.chr_banks == 0 {
            Some(address as usize)
        } else {
            None
        }
    }

    fn mirroring(&self) -> (r: Mirroring) {
        self.mirroring
    }
}

} // verus!
