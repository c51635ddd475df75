//! The mapper abstraction: cartridge-resident logic that banks PRG and CHR
//! into the console's address spaces. Mappers 0 (NROM) and 2 (UxROM) are in
//! scope; dispatch is over an enum so every path is verified.

use vstd::prelude::*;

mod mapper_000;
mod mapper_002;

pub use mapper_000::Mapper000;
pub use mapper_002::Mapper002;

verus! {

use super::Mirroring;

/// How a CPU read inside cartridge space resolves: an immediate byte, an
/// offset into PRG-ROM, an offset into PRG-RAM, or open bus.
#[derive(Clone, Copy, Debug, PartialEq, Eq, Structural)]
pub enum MappedRead {
    Data(u8),
    PrgRom(usize),
    PrgRam(u16),
    OpenBus,
}

/// How a CPU write inside cartridge space resolves: a store into PRG-RAM at
/// the given offset, or nothing (ROM and registers absorb the value).
#[derive(Clone, Copy, Debug, PartialEq, Eq, Structural)]
pub enum MappedWrite {
    PrgRam(u16),
    Ignored,
}

/// A mapper translates CPU/PPU addresses inside cartridge space to concrete
/// PRG/CHR offsets and reports the nametable mirroring. Each operation's
/// result is pinned to a spec-level description, so callers reason exactly.
pub trait Mapper: Sized {
    /// What a CPU read at this address resolves to.
    spec fn cpu_read_spec(&self, address: u16) -> MappedRead;

    /// The mapper state after a CPU write at this address.
    spec fn cpu_write_state_spec(&self, address: u16, value: u8) -> Self;

    /// What a CPU write at this address resolves to.
    spec fn cpu_write_spec(&self, address: u16, value: u8) -> MappedWrite;

    /// The CHR offset a PPU read at this address resolves to.
    spec fn ppu_read_spec(&self, address: u16) -> usize;

    /// The CHR-RAM offset a PPU write resolves to, if writable.
    spec fn ppu_write_spec(&self, address: u16, value: u8) -> Option<usize>;

    /// The nametable mirroring the cartridge supplies.
    spec fn mirroring_spec(&self) -> Mirroring;

    fn cpu_read(&mut self, address: u16) -> (r: MappedRead)
        ensures
            *final(self) == *old(self),
            r == old(self).cpu_read_spec(address),
    ;

    fn cpu_write(&mut self, address: u16, value: u8) -> (r: MappedWrite)
        ensures
            *final(self) == old(self).cpu_write_state_spec(address, value),
            r == old(self).cpu_write_spec(address, value),
    ;

    fn ppu_read(&mut self, address: u16) -> (r: usize)
        ensures
            *final(self) == *old(self),
            r == old(self).ppu_read_spec(address),
    ;

    fn ppu_write(&mut self, address: u16, value: u8) -> (r: Option<usize>)
        ensures
            *final(self) == *old(self),
            r == old(self).ppu_write_spec(address, value),
    ;

    fn mirroring(&self) -> (r: Mirroring)
        ensures
            r == self.mirroring_spec(),
    ;
}

/// The mappers this core supports, dispatched by a match.
#[derive(Clone, Copy, Debug, PartialEq, Eq, Structural)]
pub enum MapperKind {
    Nrom(Mapper000),
    Uxrom(Mapper002),
}

impl MapperKind {
    pub open spec fn cpu_read_spec(&self, address: u16) -> MappedRead {
        match self {
            MapperKind::Nrom(m) => m.cpu_read_spec(address),
            MapperKind::Uxrom(m) => m.cpu_read_spec(address),
        }
    }

    pub open spec fn cpu_write_state_spec(&self, address: u16, value: u8) -> MapperKind {
        match self {
            MapperKind::Nrom(m) => MapperKind::Nrom(m.cpu_write_state_spec(address, value)),
            MapperKind::Uxrom(m) => MapperKind::Uxrom(m.cpu_write_state_spec(address, value)),
        }
    }

    pub open spec fn cpu_write_spec(&self, address: u16, value: u8) -> MappedWrite {
        match self {
            MapperKind::Nrom(m) => m.cpu_write_spec(address, value),
            MapperKind::Uxrom(m) => m.cpu_write_spec(address, value),
        }
    }

    pub open spec fn ppu_read_spec(&self, address: u16) -> usize {
        match self {
            MapperKind::Nrom(m) => m.ppu_read_spec(address),
            MapperKind::Uxrom(m) => m.ppu_read_spec(address),
        }
    }

    pub open spec fn ppu_write_spec(&self, address: u16, value: u8) -> Option<usize> {
        match self {
            MapperKind::Nrom(m) => m.ppu_write_spec(address, value),
            MapperKind::Uxrom(m) => m.ppu_write_spec(address, value),
        }
    }

    pub open spec fn mirroring_spec(&self) -> Mirroring {
        match self {
            MapperKind::Nrom(m) => m.mirroring_spec(),
            MapperKind::Uxrom(m) => m.mirroring_spec(),
        }
    }

    pub fn cpu_read(&mut self, address: u16) -> (r: MappedRead)
        ensures
            *final(self) == *old(self),
            r == old(self).cpu_read_spec(address),
    {
        match self {
            MapperKind::Nrom(m) => m.cpu_read(address),
            MapperKind::Uxrom(m) => m.cpu_read(address),
        }
    }

    pub fn cpu_write(&mut self, address: u16, value: u8) -> (r: MappedWrite)
        ensures
            *final(self) == old(self).cpu_write_state_spec(address, value),
            r == old(self).cpu_write_spec(address, value),
    {
        match self {
            MapperKind::Nrom(m) => m.cpu_write(address, value),
            MapperKind::Uxrom(m) => m.cpu_write(address, value),
        }
    }

    pub fn ppu_read(&mut self, address: u16) -> (r: usize)
        ensures
            *final(self) == *old(self),
            r == old(self).ppu_read_spec(address),
    {
        match self {
            MapperKind::Nrom(m) => m.ppu_read(address),
            MapperKind::Uxrom(m) => m.ppu_read(address),
        }
    }

    pub fn ppu_write(&mut self, address: u16, value: u8) -> (r: Option<usize>)
        ensures
            *final(self) == *old(self),
            r == old(self).ppu_write_spec(address, value),
    {
        match self {
            MapperKind::Nrom(m) => m.ppu_write(address, value),
            MapperKind::Uxrom(m) => m.ppu_write(address, value),
        }
    }

    pub fn mirroring(&self) -> (r: Mirroring)
        ensures
            r == self.mirroring_spec(),
    {
        match self {
            MapperKind::Nrom(m) => m.mirroring(),
            MapperKind::Uxrom(m) => m.mirroring(),
        }
    }
}

} // verus!
