//! The cartridge: iNES header parsing, the PRG-ROM / PRG-RAM / CHR-ROM /
//! CHR-RAM regions, and delegation to the mapper.

use vstd::prelude::*;

pub mod mapper;

verus! {

use mapper::{MappedRead, MappedWrite, Mapper000, Mapper002, MapperKind};

/// The topology by which the two physical nametables cover the four virtual
/// nametable slots.
#[derive(Clone, Copy, Debug, PartialEq, Eq, Structural)]
pub enum Mirroring {
    Horizontal,
    Vertical,
    SingleScreenLower,
    SingleScreenUpper,
    FourScreen,
}

/// The 16-byte iNES header, decoded field by field.
#[derive(Clone, Copy, Debug, PartialEq, Eq, Structural)]
pub struct INesHeader {
    /// PRG-ROM size in 16-KiB units.
    pub prg_rom_size: u8,
    /// CHR-ROM size in 8-KiB units; 0 means the board carries CHR-RAM.
    pub chr_rom_size: u8,
    /// Mirroring, battery, trainer, four-screen, and the low mapper nibble.
    pub flags_6: u8,
    /// Console variants, version marker, and the high mapper nibble.
    pub flags_7: u8,
    /// PRG-RAM size in 8-KiB units.
    pub flags_8: u8,
}

/// Why a ROM image was rejected.
#[derive(Clone, Copy, Debug, PartialEq, Eq, Structural)]
pub enum CartridgeError {
    /// Shorter than the 16-byte header.
    TooShort,
    /// The four magic bytes are not "NES" followed by $1A.
    BadMagic,
    /// A mapper other than 0 (NROM) or 2 (UxROM).
    UnsupportedMapper,
    /// The file ends before the PRG-ROM the header promises.
    PrgOutOfBounds,
    /// The file ends before the CHR-ROM the header promises.
    ChrOutOfBounds,
}

impl CartridgeError {
    /// A short description, fit for a host's diagnostics.
    pub fn message(&self) -> (r: &'static str)
        ensures
            r@ == self.message_spec(),
    {
        match self {
            CartridgeError::TooShort => "ROM data is too small for expected iNES header",
            CartridgeError::BadMagic => "Invalid iNES header",
            CartridgeError::UnsupportedMapper => "Unsupported mapper",
            CartridgeError::PrgOutOfBounds => "ROM data is too small for expected PRG-ROM",
            CartridgeError::ChrOutOfBounds => "ROM data is too small for expected CHR-ROM",
        }
    }

    pub open spec fn message_spec(&self) -> Seq<char> {
        match self {
            CartridgeError::TooShort => "ROM data is too small for expected iNES header"@,
            CartridgeError::BadMagic => "Invalid iNES header"@,
            CartridgeError::UnsupportedMapper => "Unsupported mapper"@,
            CartridgeError::PrgOutOfBounds => "ROM data is too small for expected PRG-ROM"@,
            CartridgeError::ChrOutOfBounds => "ROM data is too small for expected CHR-ROM"@,
        }
    }
}

/// Copies `data[start .. start + len]` into a fresh vector.
pub(crate) fn copy_range(data: &[u8], start: usize, len: usize) -> (r: Vec<u8>)
    requires
        start + len <= data@.len(),
    ensures
        r@ == data@.subrange(start as int, start as int + len as int),
{
    let dlen: usize = data.len();
    let mut out: Vec<u8> = Vec::new();
    let mut i: usize = 0;
    while i < len
        invariant
            i <= len,
            start + len <= dlen,
            dlen == data@.len(),
            out@ == data@.subrange(start as int, start as int + i as int),
        decreases len - i,
    {
        out.push(data[start + i]);
        proof {
            assert(out@ =~= data@.subrange(start as int, start as int + (i + 1) as int));
        }
        i = i + 1;
    }
    out
}

/// Returns a vector of `len` zero bytes.
pub(crate) fn zero_filled(len: usize) -> (r: Vec<u8>)
    ensures
        r@.len() == len,
        forall|i: int| 0 <= i < len ==> r@[i] == 0u8,
{
    let mut out: Vec<u8> = Vec::new();
    let mut i: usize = 0;
    while i < len
        invariant
            i <= len,
            out@.len() == i,
            forall|j: int| 0 <= j < i ==> out@[j] == 0u8,
        decreases len - i,
    {
        out.push(0u8);
        i = i + 1;
    }
    out
}

pub struct Cartridge {
    pub prg_rom: Vec<u8>,
    pub chr_rom: Vec<u8>,
    pub prg_ram: Vec<u8>,
    pub chr_ram: Vec<u8>,
    pub mapper: MapperKind,
    pub mirroring: Mirroring,
}

/// The mirroring the header's flags 6 byte selects.
pub open spec fn mirroring_of_flags(flags_6: u8) -> Mirroring {
    if flags_6 & 0x08 != 0 {
        Mirroring::FourScreen
    } else if flags_6 & 0x01 != 0 {
        Mirroring::Vertical
    } else {
        Mirroring::Horizontal
    }
}

/// The mapper number spread over the two header flag bytes.
pub open spec fn mapper_number_of_flags(flags_6: u8, flags_7: u8) -> u8 {
    ((flags_7 & 0xF0) | (flags_6 >> 4)) as u8
}

impl Cartridge {
    /// Whether the four iNES magic bytes open the image.
    pub open spec fn magic_ok(data: Seq<u8>) -> bool {
        data[0] == 0x4E && data[1] == 0x45 && data[2] == 0x53 && data[3] == 0x1A
    }

    /// Where the PRG-ROM starts: after the header, and after the 512-byte
    /// trainer when flags 6 bit 2 announces one.
    pub open spec fn prg_start_spec(flags_6: u8) -> int {
        if flags_6 & 0x04 != 0 {
            528int
        } else {
            16int
        }
    }

    /// Well-formedness: PRG-RAM is 8 KiB, and exactly one of CHR-ROM or
    /// CHR-RAM is present, the RAM variant being 8 KiB.
    pub open spec fn wf(&self) -> bool {
        &&& self.prg_ram@.len() == 8192
        &&& (self.chr_rom@.len() == 0 ==> self.chr_ram@.len() == 8192)
        &&& (self.chr_rom@.len() != 0 ==> self.chr_ram@.len() == 0)
    }

    /// Whether an image holds everything parsing demands: the full header,
    /// the magic, a supported mapper, and the PRG and CHR regions the header
    /// promises. Parsing succeeds on exactly these images.
    pub open spec fn parse_ok_spec(data: Seq<u8>) -> bool {
        &&& data.len() >= 16
        &&& Self::magic_ok(data)
        &&& (mapper_number_of_flags(data[6], data[7]) == 0 || mapper_number_of_flags(
            data[6],
            data[7],
        ) == 2)
        &&& data.len() >= Self::prg_start_spec(data[6]) + data[4] as int * 16384
        &&& (data[5] == 0 || data.len() >= Self::prg_start_spec(data[6]) + data[4] as int * 16384
            + data[5] as int * 8192)
    }

    /// Parses an iNES image. Returns the cartridge exactly when the magic
    /// matches, the mapper is 0 or 2, and the file holds the PRG and CHR
    /// regions the header promises; otherwise names what failed.
    pub fn new(data: &[u8]) -> (r: Result<Cartridge, CartridgeError>)
        ensures
            data@.len() < 16 <==> r == Err::<Cartridge, _>(CartridgeError::TooShort),
            data@.len() >= 16 && !Self::magic_ok(data@) <==> r == Err::<Cartridge, _>(
                CartridgeError::BadMagic,
            ),
            data@.len() >= 16 && Self::magic_ok(data@) && mapper_number_of_flags(
                data@[6],
                data@[7],
            ) != 0 && mapper_number_of_flags(data@[6], data@[7]) != 2 <==> r == Err::<
                Cartridge,
                _,
            >(CartridgeError::UnsupportedMapper),
            data@.len() >= 16 && Self::magic_ok(data@) && (mapper_number_of_flags(data@[6], data@[7])
                == 0 || mapper_number_of_flags(data@[6], data@[7]) == 2) && data@.len()
                < Self::prg_start_spec(data@[6]) + data@[4] as int * 16384 <==> r == Err::<
                Cartridge,
                _,
            >(CartridgeError::PrgOutOfBounds),
            data@.len() >= 16 && Self::magic_ok(data@) && (mapper_number_of_flags(data@[6], data@[7])
                == 0 || mapper_number_of_flags(data@[6], data@[7]) == 2) && data@.len()
                >= Self::prg_start_spec(data@[6]) + data@[4] as int * 16384 && data@[5] != 0
                && data@.len() < Self::prg_start_spec(data@[6]) + data@[4] as int * 16384
                + data@[5] as int * 8192 <==> r == Err::<Cartridge, _>(
                CartridgeError::ChrOutOfBounds,
            ),
            r is Ok <==> Self::parse_ok_spec(data@),
            r matches Ok(c) ==> {
                &&& c.wf()
                &&& c.prg_rom@.len() == data@[4] as int * 16384
                &&& c.prg_rom@ == data@.subrange(
                    Self::prg_start_spec(data@[6]),
                    Self::prg_start_spec(data@[6]) + data@[4] as int * 16384,
                )
                &&& c.chr_rom@.len() == data@[5] as int * 8192
                &&& (data@[5] != 0 ==> c.chr_rom@ == data@.subrange(
                    Self::prg_start_spec(data@[6]) + data@[4] as int * 16384,
                    Self::prg_start_spec(data@[6]) + data@[4] as int * 16384 + data@[5] as int
                        * 8192,
                ))
                &&& c.prg_ram@.len() == 8192
                &&& (forall|i: int| 0 <= i < 8192 ==> c.prg_ram@[i] == 0u8)
                &&& (data@[5] == 0 ==> c.chr_ram@.len() == 8192 && forall|i: int|
                    0 <= i < 8192 ==> c.chr_ram@[i] == 0u8)
                &&& c.mirroring == mirroring_of_flags(data@[6])
                &&& c.mapper.mirroring_spec() == mirroring_of_flags(data@[6])
                &&& (mapper_number_of_flags(data@[6], data@[7]) == 0 <==> c.mapper is Nrom)
                &&& (mapper_number_of_flags(data@[6], data@[7]) == 2 <==> c.mapper is Uxrom)
            },
    {
        if data.len() < 16 {
            return Err(CartridgeError::TooShort);
        }
        if !(data[0] == 0x4E && data[1] == 0x45 && data[2] == 0x53 && data[3] == 0x1A) {
            return Err(CartridgeError::BadMagic);
        }

        let header = INesHeader {
            prg_rom_size: data[4],
            chr_rom_size: data[5],
            flags_6: data[6],
            flags_7: data[7],
            flags_8: data[8],
        };

        let mapper_number: u8 = (header.flags_7 & 0xF0) | (header.flags_6 >> 4);
        if mapper_number != 0 && mapper_number != 2 {
            return Err(CartridgeError::UnsupportedMapper);
        }

        let mirroring = if header.flags_6 & 0x08 != 0 {
            Mirroring::FourScreen
        } else if header.flags_6 & 0x01 != 0 {
            Mirroring::Vertical
        } else {
            Mirroring::Horizontal
        };

        let prg_rom_size: usize = (header.prg_rom_size as usize) * 16384;
        let chr_rom_size: usize = (header.chr_rom_size as usize) * 8192;

        let mut offset: usize = 16;
        if header.flags_6 & 0x04 != 0 {
            offset = offset + 512;
        }

        if data.len() < offset + prg_rom_size {
            return Err(CartridgeError::PrgOutOfBounds);
        }
        let prg_rom = copy_range(data, offset, prg_rom_size);
        offset = offset + prg_rom_size;

        let (chr_rom, chr_ram) = if chr_rom_size > 0 {
            if data.len() < offset + chr_rom_size {
                return Err(CartridgeError::ChrOutOfBounds);
            }
            (copy_range(data, offset, chr_rom_size), Vec::new())
        } else {
            (Vec::new(), zero_filled(8192))
        };

        let mapper = if mapper_number == 0 {
            MapperKind::Nrom(Mapper000::new(prg_rom_size, chr_rom_size, mirroring))
        } else {
            MapperKind::Uxrom(Mapper002::new(prg_rom_size, chr_rom_size, mirroring))
        };

        Ok(
            Cartridge {
                prg_rom,
                chr_rom,
                prg_ram: zero_filled(8192),
                chr_ram,
                mapper,
                mirroring,
            },
        )
    }

    /// What a CPU read of cartridge space returns: the mapper resolves the
    /// address and the byte comes from the named region, in-bounds, else 0.
    pub open spec fn cpu_read_spec(&self, address: u16) -> u8 {
        match self.mapper.cpu_read_spec(address) {
            MappedRead::Data(value) => value,
            MappedRead::PrgRom(offset) => if offset < self.prg_rom@.len() {
                self.prg_rom@[offset as int]
            } else {
                0u8
            },
            MappedRead::PrgRam(offset) => if offset < self.prg_ram@.len() {
                self.prg_ram@[offset as int]
            } else {
                0u8
            },
            MappedRead::OpenBus => 0u8,
        }
    }

    /// CPU reads from $4020-$FFFF.
    pub fn cpu_read(&mut self, address: u16) -> (r: u8)
        ensures
            *final(self) == *old(self),
            r == old(self).cpu_read_spec(address),
    {
        match self.mapper.cpu_read(address) {
            MappedRead::Data(value) => value,
            MappedRead::PrgRom(offset) => {
                if offset < self.prg_rom.len() {
                    self.prg_rom[offset]
                } else {
                    0
                }
            },
            MappedRead::PrgRam(offset) => {
                if (offset as usize) < self.prg_ram.len() {
                    self.prg_ram[offset as usize]
                } else {
                    0
                }
            },
            MappedRead::OpenBus => 0,
        }
    }

    /// The PRG-RAM contents after a CPU write of cartridge space.
    pub open spec fn cpu_write_ram_spec(&self, address: u16, value: u8) -> Seq<u8> {
        match self.mapper.cpu_write_spec(address, value) {
            MappedWrite::PrgRam(offset) => if offset < self.prg_ram@.len() {
                self.prg_ram@.update(offset as int, value)
            } else {
                self.prg_ram@
            },
            MappedWrite::Ignored => self.prg_ram@,
        }
    }

    /// CPU writes to $4020-$FFFF: bank registers latch, PRG-RAM stores, and
    /// everything else is silently ignored.
    pub fn cpu_write(&mut self, address: u16, value: u8)
        ensures
            final(self).mapper == old(self).mapper.cpu_write_state_spec(address, value),
            final(self).prg_ram@ == old(self).cpu_write_ram_spec(address, value),
            final(self).prg_rom == old(self).prg_rom,
            final(self).chr_rom == old(self).chr_rom,
            final(self).chr_ram == old(self).chr_ram,
            final(self).mirroring == old(self).mirroring,
    {
        match self.mapper.cpu_write(address, value) {
            MappedWrite::PrgRam(offset) => {
                if (offset as usize) < self.prg_ram.len() {
                    self.prg_ram[offset as usize] = value;
                }
            },
            MappedWrite::Ignored => {},
        }
    }

    /// What a PPU read of pattern space returns: the mapped offset looked up
    /// in CHR-ROM when present, else CHR-RAM, else 0.
    pub open spec fn ppu_read_spec(&self, address: u16) -> u8 {
        let offset = self.mapper.ppu_read_spec(address);
        if self.chr_rom@.len() != 0 && offset < self.chr_rom@.len() {
            self.chr_rom@[offset as int]
        } else if self.chr_ram@.len() != 0 && offset < self.chr_ram@.len() {
            self.chr_ram@[offset as int]
        } else {
            0u8
        }
    }

    /// PPU reads from $0000-$1FFF.
    pub fn ppu_read(&mut self, address: u16) -> (r: u8)
        ensures
            *final(self) == *old(self),
            r == old(self).ppu_read_spec(address),
    {
        let offset = self.mapper.ppu_read(address);
        if self.chr_rom.len() != 0 && offset < self.chr_rom.len() {
            self.chr_rom[offset]
        } else if self.chr_ram.len() != 0 && offset < self.chr_ram.len() {
            self.chr_ram[offset]
        } else {
            0
        }
    }

    /// The CHR-RAM contents after a PPU write of pattern space: CHR-ROM
    /// boards ignore the store.
    pub open spec fn ppu_write_ram_spec(&self, address: u16, value: u8) -> Seq<u8> {
        match self.mapper.ppu_write_spec(address, value) {
            Some(offset) => if self.chr_ram@.len() != 0 && offset < self.chr_ram@.len() {
                self.chr_ram@.update(offset as int, value)
            } else {
                self.chr_ram@
            },
            None => self.chr_ram@,
        }
    }

    /// PPU writes to $0000-$1FFF (CHR-RAM only).
    pub fn ppu_write(&mut self, address: u16, value: u8)
        ensures
            final(self).chr_ram@ == old(self).ppu_write_ram_spec(address, value),
            final(self).prg_rom == old(self).prg_rom,
            final(self).chr_rom == old(self).chr_rom,
            final(self).prg_ram == old(self).prg_ram,
            final(self).mapper == old(self).mapper,
            final(self).mirroring == old(self).mirroring,
    {
        match self.mapper.ppu_write(address, value) {
            Some(offset) => {
                if self.chr_ram.len() != 0 && offset < self.chr_ram.len() {
                    self.chr_ram[offset] = value;
                }
            },
            None => {},
        }
    }

    /// The nametable mirroring the mapper supplies.
    pub fn mirroring(&self) -> (r: Mirroring)
        ensures
            r == self.mapper.mirroring_spec(),
    {
        self.mapper.mirroring()
    }
}

} // verus!
