//! A memory port: byte and little-endian 16-bit reads and writes, as the
//! CPU sees the bus.

use vstd::prelude::*;

verus! {

use super::Cpu;

pub trait Mem {
    /// Whether the port is ready for an access.
    spec fn mem_wf(&self) -> bool;

    fn read(&mut self, address: u16) -> (r: u8)
        requires
            old(self).mem_wf(),
        ensures
            final(self).mem_wf(),
    ;

    fn write(&mut self, address: u16, value: u8)
        requires
            old(self).mem_wf(),
        ensures
            final(self).mem_wf(),
    ;

    fn read_u16(&mut self, address: u16) -> (r: u16)
        requires
            old(self).mem_wf(),
            address < 0xFFFF,
        ensures
            final(self).mem_wf(),
    ;

    fn write_u16(&mut self, address: u16, value: u16)
        requires
            old(self).mem_wf(),
            address < 0xFFFF,
        ensures
            final(self).mem_wf(),
    ;
}

impl Mem for Cpu {
    open spec fn mem_wf(&self) -> bool {
        self.wf()
    }

    fn read(&mut self, address: u16) -> u8 {
        self.bus.read(address)
    }

    fn write(&mut self, address: u16, value: u8) {
        self.bus.write(address, value);
    }

    fn read_u16(&mut self, address: u16) -> u16 {
        let low_byte = self.bus.read(address) as u16;
        let high_byte = self.bus.read(address + 1) as u16;
        (high_byte << 8) | low_byte
    }

    fn write_u16(&mut self, address: u16, value: u16) {
        let high_byte = (value >> 8) as u8;
        let low_byte = (value & 0xFF) as u8;
        self.bus.write(address, low_byte);
        self.bus.write(address + 1, high_byte);
    }
}

} // verus!
