//! The system bus: 2 KiB work RAM with its mirrors, the PPU and APU register
//! windows, the controller ports, OAM-DMA, the cartridge space, and the two
//! latched interrupt lines.

use vstd::prelude::*;

verus! {

use crate::apu::Apu;
use crate::cartridge::Cartridge;
use crate::joypad::Joypad;
use crate::ppu::registers::addr::PpuAddrRegister;
use crate::ppu::registers::ctrl::PpuCtrlRegister;
use crate::ppu::registers::mask::PpuMaskRegister;
use crate::ppu::registers::scroll::PpuScrollRegister;
use crate::ppu::{mirror_vram_spec, palette_index_spec, Ppu};

pub struct Bus {
    pub ram: Vec<u8>,
    pub ppu: Ppu,
    pub apu: Apu,
    pub controller_1: Joypad,
    pub controller_2: Joypad,

    pub cartridge: Cartridge,

    pub nmi_pending: bool,
    pub irq_pending: bool,

    /// Extra cycles an OAM-DMA imposed on the instruction in flight; the CPU
    /// collects them when the instruction retires.
    pub dma_stall: u64,
    /// Whether the CPU entered the instruction in flight on an odd cycle;
    /// decides between the 513- and 514-cycle DMA stall.
    pub odd_cycle: bool,
}

impl Bus {
    pub open spec fn wf(&self) -> bool {
        &&& self.ram@.len() == 2048
        &&& self.ppu.wf()
        &&& self.apu.wf()
        &&& (self.dma_stall == 0 || self.dma_stall == 513 || self.dma_stall == 514)
    }

    pub fn new(ppu: Ppu, apu: Apu, cartridge: Cartridge) -> (r: Bus)
        requires
            ppu.wf(),
            apu.wf(),
        ensures
            r.wf(),
            r.ppu == ppu,
            r.apu == apu,
            r.cartridge == cartridge,
            !r.nmi_pending,
            !r.irq_pending,
            r.dma_stall == 0,
            forall|i: int| 0 <= i < 2048 ==> r.ram@[i] == 0u8,
    {
        Bus {
            ram: crate::cartridge::zero_filled(2048),
            ppu,
            apu,
            controller_1: Joypad::new(),
            controller_2: Joypad::new(),

            cartridge,

            nmi_pending: false,
            irq_pending: false,

            dma_stall: 0,
            odd_cycle: false,
        }
    }

    /// A CPU read. RAM and cartridge reads are pure; a PPU-window read can
    /// clear VBlank or advance the VRAM pointer; $4015 acknowledges the
    /// frame IRQ; $4016/$4017 shift the controllers.
    pub fn read(&mut self, address: u16) -> (r: u8)
        requires
            old(self).wf(),
        ensures
            final(self).wf(),
            final(self).ppu.cycle == old(self).ppu.cycle,
            final(self).ppu.scanline == old(self).ppu.scanline,
            final(self).ppu.frame == old(self).ppu.frame,
            final(self).nmi_pending == old(self).nmi_pending,
            final(self).irq_pending == old(self).irq_pending,
            final(self).dma_stall == old(self).dma_stall,
            final(self).odd_cycle == old(self).odd_cycle,
            final(self).ram == old(self).ram,
            final(self).cartridge == old(self).cartridge,
            address < 0x2000 ==> r == old(self).ram@[(address & 0x07FF) as int] && *final(self)
                == *old(self),
            0x4020 <= address ==> r == old(self).cartridge.cpu_read_spec(address) && *final(self)
                == *old(self),
            0x4000 <= address <= 0x4013 || address == 0x4014 || (0x4018 <= address <= 0x401F)
                ==> r == 0 && *final(self) == *old(self),
            address == 0x4015 ==> r == old(self).apu.status_byte_spec() && !final(self).apu.frame_irq,
            address == 0x4016 ==> r == old(self).controller_1.read_value_spec(),
            address == 0x4017 ==> r == old(self).controller_2.read_value_spec(),
            0x2000 <= address < 0x4000 ==> final(self).apu == old(self).apu && final(self).controller_1 == old(self).controller_1 && final(self).controller_2 == old(self).controller_2 && final(self).cartridge == old(self).cartridge,
            // A PPU-window read lands on the register the low three bits
            // name: $2002 reports status and resets the write latch, $2004
            // reads OAM, $2007 reads through the delay buffer.
            0x2000 <= address < 0x4000 ==> ({
                let reg = address & 0x2007;
                &&& (reg == 0x2002 ==> {
                    &&& r == old(self).ppu.status.bits_spec()
                    &&& !final(self).ppu.status.vblank
                    &&& final(self).ppu.status.sprite_zero_hit == old(self).ppu.status.sprite_zero_hit
                    &&& final(self).ppu.status.sprite_overflow == old(self).ppu.status.sprite_overflow
                    &&& final(self).ppu.addr == (PpuAddrRegister { latch: true, ..old(self).ppu.addr })
                    &&& final(self).ppu.scroll == (PpuScrollRegister {
                        latch: true,
                        ..old(self).ppu.scroll
                    })
                })
                &&& (reg == 0x2004 ==> r == old(self).ppu.oam_data@[old(self).ppu.oam_addr as int]
                    && final(self).ppu == old(self).ppu)
                &&& (reg == 0x2007 ==> ({
                    let a = old(self).ppu.addr.get_spec();
                    &&& (a < 0x2000 ==> r == old(self).ppu.internal_data_buffer)
                    &&& (0x2000 <= a < 0x3000 ==> r == old(self).ppu.internal_data_buffer
                        && final(self).ppu.internal_data_buffer == old(self).ppu.vram@[mirror_vram_spec(old(self).cartridge.mirroring, a)])
                    &&& (0x3F00 <= a ==> r == old(self).ppu.palette_table@[palette_index_spec(a)])
                    &&& final(self).ppu.addr == old(self).ppu.addr.increment_spec(
                        old(self).ppu.ctrl.vram_add_increment_spec(),
                    )
                }))
                &&& (reg != 0x2002 && reg != 0x2004 && reg != 0x2007 ==> r == 0 && final(self).ppu
                    == old(self).ppu)
            }),
    {
        if address < 0x2000 {
            proof {
                let a = address;
                assert((a & 0x07FF) < 2048) by (bit_vector);
            }
            self.ram[(address & 0x07FF) as usize]
        } else if address < 0x4000 {
            proof {
                let a = address;
                assert(0x2000 <= (a & 0x2007) <= 0x2007) by (bit_vector)
                    requires
                        0x2000 <= a < 0x4000,
                ;
            }
            self.ppu.cpu_read(address & 0x2007, &mut self.cartridge)
        } else if address <= 0x4017 {
            self.read_io(address)
        } else if address <= 0x401F {
            0  // Open bus.
        } else {
            self.cartridge.cpu_read(address)
        }
    }

    /// A CPU write.
    pub fn write(&mut self, address: u16, value: u8)
        requires
            old(self).wf(),
        ensures
            final(self).wf(),
            final(self).ppu.cycle == old(self).ppu.cycle,
            final(self).ppu.scanline == old(self).ppu.scanline,
            final(self).ppu.frame == old(self).ppu.frame,
            final(self).nmi_pending == old(self).nmi_pending,
            final(self).irq_pending == old(self).irq_pending,
            address < 0x2000 ==> *final(self) == (Bus {
                ram: final(self).ram,
                ..*old(self)
            }) && final(self).ram@ == old(self).ram@.update((address & 0x07FF) as int, value),
            0x2000 <= address < 0x4000 ==> final(self).ram == old(self).ram && final(self).apu
                == old(self).apu && final(self).dma_stall == old(self).dma_stall,
            0x4020 <= address ==> *final(self) == (Bus {
                cartridge: final(self).cartridge,
                ..*old(self)
            }) && final(self).cartridge.mapper == old(self).cartridge.mapper.cpu_write_state_spec(
                address,
                value,
            ) && final(self).cartridge.prg_ram@ == old(self).cartridge.cpu_write_ram_spec(
                address,
                value,
            ) && final(self).cartridge.prg_rom == old(self).cartridge.prg_rom,
            address == 0x4015 ==> {
                &&& (value & 0x01 == 0 ==> final(self).apu.pulse_1.length_counter == 0)
                &&& (value & 0x02 == 0 ==> final(self).apu.pulse_2.length_counter == 0)
                &&& (value & 0x04 == 0 ==> final(self).apu.triangle.length_counter == 0)
                &&& (value & 0x08 == 0 ==> final(self).apu.noise.length_counter == 0)
                &&& (value & 0x10 == 0 ==> final(self).apu.dmc.bytes_remaining == 0)
            },
            address == 0x4016 ==> final(self).controller_1.strobe == (value & 1 == 1) && final(self).controller_2.strobe == (value & 1 == 1),
            address == 0x4014 ==> final(self).dma_stall == 513 + (if old(self).odd_cycle {
                1int
            } else {
                0int
            }),
            address != 0x4014 ==> final(self).dma_stall == old(self).dma_stall,
            // An APU register write lands in the addressed channel register,
            // the enable mask, or the delayed frame-counter write.
            0x4000 <= address <= 0x4013 || address == 0x4015 || address == 0x4017
                ==> final(self).apu == old(self).apu.cpu_write_spec(
                address,
                value,
                old(self).apu.cycle & 1 == 1,
            ),
            // A PPU-window write lands on the register the low three bits
            // name.
            0x2000 <= address < 0x4000 ==> ({
                let reg = address & 0x2007;
                &&& (reg == 0x2000 ==> final(self).ppu == (Ppu {
                    ctrl: (PpuCtrlRegister { bits: value }),
                    nmi_output: old(self).ppu.nmi_occurred && (PpuCtrlRegister {
                        bits: value,
                    }).generate_nmi_spec(),
                    ..old(self).ppu
                }))
                &&& (reg == 0x2001 ==> final(self).ppu == (Ppu {
                    mask: (PpuMaskRegister { bits: value }),
                    ..old(self).ppu
                }))
                &&& (reg == 0x2002 ==> final(self).ppu == old(self).ppu)
                &&& (reg == 0x2003 ==> final(self).ppu == (Ppu {
                    oam_addr: value,
                    ..old(self).ppu
                }))
                &&& (reg == 0x2004 ==> final(self).ppu.oam_data@ == old(self).ppu.oam_data@.update(
                    old(self).ppu.oam_addr as int,
                    value,
                ) && final(self).ppu.oam_addr == old(self).ppu.oam_addr.wrapping_add(1))
                &&& (reg == 0x2005 ==> final(self).ppu == (Ppu {
                    scroll: old(self).ppu.scroll.update_spec(value),
                    ..old(self).ppu
                }))
                &&& (reg == 0x2006 ==> final(self).ppu == (Ppu {
                    addr: old(self).ppu.addr.update_spec(value),
                    ..old(self).ppu
                }))
                &&& (reg == 0x2007 ==> ({
                    let a = old(self).ppu.addr.get_spec();
                    &&& (a < 0x2000 ==> final(self).cartridge.chr_ram@ == old(self).cartridge.ppu_write_ram_spec(a, value))
                    &&& (0x2000 <= a < 0x3000 ==> final(self).ppu.vram@ == old(self).ppu.vram@.update(mirror_vram_spec(old(self).cartridge.mirroring, a), value))
                    &&& (0x3F00 <= a ==> final(self).ppu.palette_table@ == old(self).ppu.palette_table@.update(palette_index_spec(a), value))
                    &&& final(self).ppu.addr == old(self).ppu.addr.increment_spec(
                        old(self).ppu.ctrl.vram_add_increment_spec(),
                    )
                }))
            }),
    {
        if address < 0x2000 {
            proof {
                let a = address;
                assert((a & 0x07FF) < 2048) by (bit_vector);
            }
            self.ram[(address & 0x07FF) as usize] = value;
        } else if address < 0x4000 {
            proof {
                let a = address;
                assert(0x2000 <= (a & 0x2007) <= 0x2007) by (bit_vector)
                    requires
                        0x2000 <= a < 0x4000,
                ;
            }
            self.ppu.cpu_write(address & 0x2007, value, &mut self.cartridge);
        } else if address <= 0x4017 {
            self.write_io(address, value);
        } else if address <= 0x401F {
            // Open bus.
        } else {
            self.cartridge.cpu_write(address, value);
        }
    }

    /// Arms the edge-triggered NMI line.
    pub fn trigger_nmi(&mut self)
        ensures
            *final(self) == (Bus { nmi_pending: true, ..*old(self) }),
    {
        self.nmi_pending = true;
    }

    /// Consumes the NMI edge.
    pub fn poll_nmi(&mut self) -> (pending: bool)
        ensures
            pending == old(self).nmi_pending,
            *final(self) == (Bus { nmi_pending: false, ..*old(self) }),
    {
        let pending = self.nmi_pending;
        self.nmi_pending = false;
        pending
    }

    /// Arms the level-latched IRQ line.
    pub fn trigger_irq(&mut self)
        ensures
            *final(self) == (Bus { irq_pending: true, ..*old(self) }),
    {
        self.irq_pending = true;
    }

    /// Consumes the IRQ latch.
    pub fn poll_irq(&mut self) -> (pending: bool)
        ensures
            pending == old(self).irq_pending,
            *final(self) == (Bus { irq_pending: false, ..*old(self) }),
    {
        let pending = self.irq_pending;
        self.irq_pending = false;
        pending
    }

    /// Collects the DMA stall cycles charged to the instruction in flight.
    pub fn take_dma_stall(&mut self) -> (stall: u64)
        ensures
            stall == old(self).dma_stall,
            *final(self) == (Bus { dma_stall: 0, ..*old(self) }),
    {
        let stall = self.dma_stall;
        self.dma_stall = 0;
        stall
    }

    fn read_io(&mut self, address: u16) -> (r: u8)
        requires
            old(self).wf(),
            0x4000 <= address <= 0x4017,
        ensures
            final(self).wf(),
            final(self).ppu.cycle == old(self).ppu.cycle,
            final(self).ppu.scanline == old(self).ppu.scanline,
            final(self).ppu.frame == old(self).ppu.frame,
            final(self).nmi_pending == old(self).nmi_pending,
            final(self).irq_pending == old(self).irq_pending,
            final(self).dma_stall == old(self).dma_stall,
            final(self).odd_cycle == old(self).odd_cycle,
            final(self).ram == old(self).ram,
            final(self).cartridge == old(self).cartridge,
            final(self).ppu == old(self).ppu,
            address <= 0x4014 ==> r == 0 && *final(self) == *old(self),
            address == 0x4015 ==> r == old(self).apu.status_byte_spec() && !final(self).apu.frame_irq,
            address == 0x4016 ==> r == old(self).controller_1.read_value_spec(),
            address == 0x4017 ==> r == old(self).controller_2.read_value_spec(),
    {
        if address == 0x4014 {
            0  // Write-only, open bus.
        } else if address == 0x4016 {
            self.controller_1.read()
        } else if address == 0x4017 {
            self.controller_2.read()
        } else {
            self.apu.cpu_read(address)
        }
    }

    fn write_io(&mut self, address: u16, value: u8)
        requires
            old(self).wf(),
            0x4000 <= address <= 0x4017,
        ensures
            final(self).wf(),
            final(self).ppu.cycle == old(self).ppu.cycle,
            final(self).ppu.scanline == old(self).ppu.scanline,
            final(self).ppu.frame == old(self).ppu.frame,
            final(self).nmi_pending == old(self).nmi_pending,
            final(self).irq_pending == old(self).irq_pending,
            address == 0x4015 ==> {
                &&& (value & 0x01 == 0 ==> final(self).apu.pulse_1.length_counter == 0)
                &&& (value & 0x02 == 0 ==> final(self).apu.pulse_2.length_counter == 0)
                &&& (value & 0x04 == 0 ==> final(self).apu.triangle.length_counter == 0)
                &&& (value & 0x08 == 0 ==> final(self).apu.noise.length_counter == 0)
                &&& (value & 0x10 == 0 ==> final(self).apu.dmc.bytes_remaining == 0)
            },
            address == 0x4016 ==> final(self).controller_1.strobe == (value & 1 == 1) && final(self).controller_2.strobe == (value & 1 == 1),
            address == 0x4014 ==> final(self).dma_stall == 513 + (if old(self).odd_cycle {
                1int
            } else {
                0int
            }),
            address != 0x4014 ==> final(self).dma_stall == old(self).dma_stall,
            0x4000 <= address <= 0x4013 || address == 0x4015 || address == 0x4017
                ==> final(self).apu == old(self).apu.cpu_write_spec(
                address,
                value,
                old(self).apu.cycle & 1 == 1,
            ),
            final(self).ram == old(self).ram,
            final(self).cartridge.prg_rom == old(self).cartridge.prg_rom,
            final(self).cartridge.prg_ram == old(self).cartridge.prg_ram,
            final(self).cartridge.mapper == old(self).cartridge.mapper,
    {
        if address == 0x4014 {
            self.write_oam_dma(value);
        } else if address == 0x4016 {
            self.controller_1.write(value);
            self.controller_2.write(value);
        } else {
            self.apu.cpu_write(address, value);
        }
    }

    /// OAM-DMA: reads the 256-byte page `value << 8` through the bus,
    /// delivers it to the PPU's OAM, and charges the CPU a stall of 513
    /// cycles, or 514 when the instruction began on an odd cycle.
    fn write_oam_dma(&mut self, value: u8)
        requires
            old(self).wf(),
        ensures
            final(self).wf(),
            final(self).ppu.cycle == old(self).ppu.cycle,
            final(self).ppu.scanline == old(self).ppu.scanline,
            final(self).ppu.frame == old(self).ppu.frame,
            final(self).nmi_pending == old(self).nmi_pending,
            final(self).irq_pending == old(self).irq_pending,
            final(self).dma_stall == 513 + (if old(self).odd_cycle {
                1int
            } else {
                0int
            }),
            final(self).ram == old(self).ram,
            final(self).cartridge.prg_rom == old(self).cartridge.prg_rom,
            final(self).cartridge.prg_ram == old(self).cartridge.prg_ram,
            final(self).cartridge.mapper == old(self).cartridge.mapper,
    {
        let mut buffer: Vec<u8> = Vec::new();
        let high_byte: u16 = (value as u16) << 8;
        proof {
            let v = value;
            assert(((v as u16) << 8) <= 0xFF00) by (bit_vector);
        }
        let mut i: u16 = 0;
        while i < 256
            invariant
                self.wf(),
                i <= 256,
                buffer@.len() == i,
                high_byte <= 0xFF00,
                self.ppu.cycle == old(self).ppu.cycle,
                self.ppu.scanline == old(self).ppu.scanline,
                self.ppu.frame == old(self).ppu.frame,
                self.nmi_pending == old(self).nmi_pending,
                self.irq_pending == old(self).irq_pending,
                self.dma_stall == old(self).dma_stall,
                self.odd_cycle == old(self).odd_cycle,
                self.ram == old(self).ram,
                self.cartridge.prg_rom == old(self).cartridge.prg_rom,
                self.cartridge.prg_ram == old(self).cartridge.prg_ram,
                self.cartridge.mapper == old(self).cartridge.mapper,
            decreases 256 - i,
        {
            let byte = self.read(high_byte + i);
            buffer.push(byte);
            i = i + 1;
        }

        self.ppu.write_to_oam_dma(buffer.as_slice());

        self.dma_stall = if self.odd_cycle {
            514
        } else {
            513
        };
    }
}

} // verus!
