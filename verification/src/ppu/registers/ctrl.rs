//! The PPU control register ($2000): nametable base, VRAM increment,
//! pattern-table selects, sprite size, and NMI enable.

use vstd::prelude::*;

verus! {

pub struct PpuCtrlRegister {
    pub bits: u8,
}

impl PpuCtrlRegister {
    /// Bit 7: raise the NMI line at the start of VBlank.
    pub open spec fn generate_nmi_spec(&self) -> bool {
        self.bits & 0x80 != 0
    }

    /// The nametable base the low two bits select.
    pub open spec fn nametable_addr_spec(&self) -> u16 {
        if self.bits & 0x03 == 0 {
            0x2000u16
        } else if self.bits & 0x03 == 1 {
            0x2400u16
        } else if self.bits & 0x03 == 2 {
            0x2800u16
        } else {
            0x2C00u16
        }
    }

    /// How far a $2007 access moves the address register.
    pub open spec fn vram_add_increment_spec(&self) -> u8 {
        if self.bits & 0x04 == 0 {
            1u8
        } else {
            32u8
        }
    }

    pub fn new() -> (r: PpuCtrlRegister)
        ensures
            r.bits == 0,
    {
        PpuCtrlRegister { bits: 0 }
    }

    pub fn update(&mut self, value: u8)
        ensures
            final(self).bits == value,
    {
        self.bits = value;
    }

    /// Whether bit 7 arms the VBlank NMI.
    pub fn generate_nmi(&self) -> (r: bool)
        ensures
            r == self.generate_nmi_spec(),
    {
        self.bits & 0x80 != 0
    }

    pub fn nametable_addr(&self) -> (r: u16)
        ensures
            r == self.nametable_addr_spec(),
    {
        let low: u8 = self.bits & 0x03;
        if low == 0 {
            0x2000
        } else if low == 1 {
            0x2400
        } else if low == 2 {
            0x2800
        } else {
            0x2C00
        }
    }

    pub fn vram_add_increment(&self) -> (r: u8)
        ensures
            r == self.vram_add_increment_spec(),
    {
        if self.bits & 0x04 == 0 {
            1
        } else {
            32
        }
    }

    pub fn sprite_pattern_addr(&self) -> (r: u16)
        ensures
            r == if self.bits & 0x08 != 0 {
                0x1000u16
            } else {
                0u16
            },
    {
        if self.bits & 0x08 != 0 {
            0x1000
        } else {
            0x0000
        }
    }

    pub fn background_pattern_addr(&self) -> (r: u16)
        ensures
            r == if self.bits & 0x10 != 0 {
                0x1000u16
            } else {
                0u16
            },
    {
        if self.bits & 0x10 != 0 {
            0x1000
        } else {
            0x0000
        }
    }

    pub fn sprite_size(&self) -> (r: u8)
        ensures
            r == if self.bits & 0x20 != 0 {
                16u8
            } else {
                8u8
            },
    {
        if self.bits & 0x20 != 0 {
            16
        } else {
            8
        }
    }
}

} // verus!
