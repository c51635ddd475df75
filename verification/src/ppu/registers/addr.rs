//! The two-write PPU address register: high byte first, low byte second,
//! clamped to the 14-bit PPU address space.

use vstd::prelude::*;

verus! {

pub struct PpuAddrRegister {
    /// High byte of the address.
    pub hi: u8,
    /// Low byte of the address.
    pub lo: u8,
    /// True when the next write lands in the high byte.
    pub latch: bool,
}

impl PpuAddrRegister {
    /// The 16-bit address the register holds.
    pub open spec fn get_spec(&self) -> u16 {
        (((self.hi as u16) << 8) | (self.lo as u16)) as u16
    }

    /// The register after one CPU write: the latch picks the byte, the
    /// result is masked to $3FFF, and the latch flips.
    pub open spec fn update_spec(&self, value: u8) -> PpuAddrRegister {
        let written = if self.latch {
            PpuAddrRegister { hi: value, lo: self.lo, latch: false }
        } else {
            PpuAddrRegister { hi: self.hi, lo: value, latch: true }
        };
        PpuAddrRegister { hi: (written.hi & 0x3F) as u8, ..written }
    }

    /// The register after adding `increment`, wrapping within $0000-$3FFF.
    pub open spec fn increment_spec(&self, increment: u8) -> PpuAddrRegister {
        let sum = ((self.get_spec() + increment) % 0x4000) as u16;
        PpuAddrRegister { hi: (sum >> 8) as u8, lo: (sum & 0xFF) as u8, latch: self.latch }
    }

    pub fn new() -> (r: PpuAddrRegister)
        ensures
            r.hi == 0,
            r.lo == 0,
            r.latch == true,
    {
        PpuAddrRegister { hi: 0, lo: 0, latch: true }
    }

    pub fn update(&mut self, value: u8)
        ensures
            *final(self) == old(self).update_spec(value),
            final(self).hi < 0x40,
    {
        if self.latch {
            self.hi = value & 0x3F;
            self.latch = false;
        } else {
            self.lo = value;
            self.hi = self.hi & 0x3F;
            self.latch = true;
        }
        proof {
            let v = value;
            let h = old(self).hi;
            assert((v & 0x3F) < 0x40 && (h & 0x3F) < 0x40) by (bit_vector);
        }
    }

    pub fn increment(&mut self, increment: u8)
        ensures
            *final(self) == old(self).increment_spec(increment),
            final(self).hi < 0x40,
    {
        let addr: u16 = ((self.hi as u16) << 8) | (self.lo as u16);
        let sum: u16 = ((addr as u32 + increment as u32) % 0x4000) as u16;
        self.hi = (sum >> 8) as u8;
        self.lo = (sum & 0xFF) as u8;
        proof {
            let s = sum;
            assert(s < 0x4000 ==> (s >> 8) < 0x40) by (bit_vector);
        }
    }

    pub fn reset_latch(&mut self)
        ensures
            *final(self) == (PpuAddrRegister { latch: true, ..*old(self) }),
    {
        self.latch = true;
    }

    pub fn get(&self) -> (r: u16)
        ensures
            r == self.get_spec(),
    {
        ((self.hi as u16) << 8) | (self.lo as u16)
    }
}

} // verus!
