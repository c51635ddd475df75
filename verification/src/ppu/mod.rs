//! The picture processing unit: the CPU-visible register file, VRAM and
//! palette RAM with their mirroring, OAM, the per-tick scanline/cycle state
//! machine, VBlank and NMI generation, and a frame-at-a-time rasteriser.

use vstd::prelude::*;

pub mod registers;
pub mod render;

verus! {

use crate::cartridge::{Cartridge, Mirroring};
use registers::addr::PpuAddrRegister;
use registers::ctrl::PpuCtrlRegister;
use registers::mask::PpuMaskRegister;
use registers::scroll::PpuScrollRegister;
use registers::status::PpuStatusRegister;

/// Ticks per scanline.
pub const CYCLES_PER_SCANLINE: u16 = 341;

/// Scanlines per frame.
pub const SCANLINES_PER_FRAME: u16 = 262;

/// The 2-KiB VRAM slot index (0 .. $800) a nametable address falls in once
/// the cartridge's mirroring folds the four virtual nametables onto the two
/// physical ones.
pub open spec fn mirror_vram_spec(mirroring: Mirroring, address: u16) -> int {
    let vram_index = (address & 0x2FFF) - 0x2000;
    let name_table = vram_index / 0x400;
    match mirroring {
        Mirroring::Vertical => if name_table == 2 || name_table == 3 {
            vram_index - 0x800
        } else {
            vram_index as int
        },
        Mirroring::Horizontal => if name_table == 3 {
            vram_index - 0x800
        } else if name_table == 1 || name_table == 2 {
            vram_index - 0x400
        } else {
            vram_index as int
        },
        Mirroring::SingleScreenLower => vram_index % 0x400,
        Mirroring::SingleScreenUpper => 0x400 + vram_index % 0x400,
        Mirroring::FourScreen => vram_index % 0x800,
    }
}

/// The palette RAM index (0 .. 32) an address in $3F00-$3FFF falls in:
/// mirrored every 32 bytes, with $3F10/$14/$18/$1C folded onto
/// $3F00/$04/$08/$0C.
pub open spec fn palette_index_spec(address: u16) -> int {
    let i = (address - 0x3F00) % 0x20;
    if i == 0x10 || i == 0x14 || i == 0x18 || i == 0x1C {
        i - 0x10
    } else {
        i as int
    }
}

pub struct Ppu {
    pub ctrl: PpuCtrlRegister,
    pub mask: PpuMaskRegister,
    pub status: PpuStatusRegister,
    pub scroll: PpuScrollRegister,
    pub addr: PpuAddrRegister,

    pub oam_addr: u8,
    pub oam_data: Vec<u8>,
    pub palette_table: Vec<u8>,
    pub vram: Vec<u8>,
    pub internal_data_buffer: u8,

    /// Tick within the scanline, 0 .. 341.
    pub cycle: u16,
    /// Scanline within the frame, 0 .. 262.
    pub scanline: u16,
    /// Completed frames since power-on.
    pub frame: u64,

    pub nmi_occurred: bool,
    pub nmi_output: bool,
    pub nmi_previous: bool,

    /// Scroll and nametable captured at the top of VBlank for the rasteriser.
    pub render_scroll_x: u8,
    pub render_scroll_y: u8,
    pub render_nametable_addr: u16,

    /// Set on an access to the unsupported $3000-$3EFF window: a programming
    /// defect in the ROM, reported to the host as fatal.
    pub fault: bool,
}

impl Ppu {
    /// Region sizes and counter ranges every operation preserves.
    pub open spec fn wf(&self) -> bool {
        &&& self.oam_data@.len() == 256
        &&& self.palette_table@.len() == 32
        &&& self.vram@.len() == 2048
        &&& self.cycle < 341
        &&& self.scanline < 262
        &&& self.addr.hi < 0x40
    }

    /// The tick position within the 341 by 262 frame grid.
    pub open spec fn pos_spec(&self) -> int {
        self.scanline * 341 + self.cycle
    }

    pub fn new() -> (r: Ppu)
        ensures
            r.wf(),
            r.cycle == 0,
            r.scanline == 0,
            r.frame == 0,
            !r.status.vblank,
            !r.status.sprite_zero_hit,
            !r.status.sprite_overflow,
            r.ctrl.bits == 0,
            r.render_nametable_addr == 0x2000,
            !r.fault,
            !r.nmi_occurred,
            !r.nmi_output,
            !r.nmi_previous,
            r.internal_data_buffer == 0,
            r.oam_addr == 0,
            forall|i: int| 0 <= i < 256 ==> r.oam_data@[i] == 0u8,
            forall|i: int| 0 <= i < 32 ==> r.palette_table@[i] == 0u8,
            forall|i: int| 0 <= i < 2048 ==> r.vram@[i] == 0u8,
    {
        Ppu {
            ctrl: PpuCtrlRegister::new(),
            mask: PpuMaskRegister::new(),
            status: PpuStatusRegister::new(),
            scroll: PpuScrollRegister::new(),
            addr: PpuAddrRegister::new(),

            oam_addr: 0,
            oam_data: crate::cartridge::zero_filled(256),
            palette_table: crate::cartridge::zero_filled(32),
            vram: crate::cartridge::zero_filled(2048),
            internal_data_buffer: 0,

            cycle: 0,
            scanline: 0,
            frame: 0,

            nmi_occurred: false,
            nmi_output: false,
            nmi_previous: false,

            render_scroll_x: 0,
            render_scroll_y: 0,
            render_nametable_addr: 0x2000,

            fault: false,
        }
    }

    /// The conservative sprite-0-hit approximation: OAM entry 0's Y matches
    /// the scanline, its X has been passed, and sprites are shown.
    fn is_sprite_zero_hit(&self, cycle: u16) -> (r: bool)
        requires
            self.oam_data@.len() == 256,
        ensures
            r == (self.oam_data@[0] == self.scanline && self.oam_data@[3] <= cycle
                && self.mask.show_sprites_spec()),
    {
        let y = self.oam_data[0] as u16;
        let x = self.oam_data[3] as u16;
        y == self.scanline && x <= cycle && self.mask.show_sprites()
    }

    /// One PPU tick. The position inside the 341 by 262 grid advances by one
    /// modulo 89342, and the return value announces the wrap: exactly one
    /// `true` per full frame of ticks. Cycle 1 of scanline 241 opens VBlank
    /// and latches the render scroll; cycle 1 of the pre-render line closes
    /// it.
    pub fn tick(&mut self) -> (new_frame: bool)
        requires
            old(self).wf(),
        ensures
            final(self).wf(),
            new_frame == (old(self).scanline == 261 && old(self).cycle == 340),
            final(self).pos_spec() == (old(self).pos_spec() + 1) % 89342,
            final(self).frame == if new_frame {
                old(self).frame.wrapping_add(1)
            } else {
                old(self).frame
            },
            // Scanline 241 reaches cycle 1: VBlank opens and the render
            // scroll latches.
            (old(self).scanline == 241 && old(self).cycle == 0) ==> {
                &&& final(self).status.vblank
                &&& final(self).nmi_occurred
                &&& final(self).render_scroll_x == old(self).scroll.scroll_x
                &&& final(self).render_scroll_y == old(self).scroll.scroll_y
                &&& final(self).render_nametable_addr == old(self).ctrl.nametable_addr_spec()
            },
            // The pre-render line reaches cycle 1: VBlank, sprite 0 hit, and
            // overflow all clear.
            (old(self).scanline == 261 && old(self).cycle == 0) ==> {
                &&& !final(self).status.vblank
                &&& !final(self).status.sprite_zero_hit
                &&& !final(self).status.sprite_overflow
                &&& !final(self).nmi_occurred
            },
            // Outside those two events the VBlank flag and NMI level persist.
            !(old(self).scanline == 241 && old(self).cycle == 0) && !(old(self).scanline == 261
                && old(self).cycle == 0) ==> {
                &&& final(self).status.vblank == old(self).status.vblank
                &&& final(self).nmi_occurred == old(self).nmi_occurred
            },
            final(self).nmi_output == (final(self).nmi_occurred
                && old(self).ctrl.generate_nmi_spec()),
            final(self).ctrl == old(self).ctrl,
            final(self).mask == old(self).mask,
            final(self).scroll == old(self).scroll,
            final(self).addr == old(self).addr,
            final(self).oam_addr == old(self).oam_addr,
            final(self).oam_data == old(self).oam_data,
            final(self).palette_table == old(self).palette_table,
            final(self).vram == old(self).vram,
            final(self).internal_data_buffer == old(self).internal_data_buffer,
            final(self).nmi_previous == old(self).nmi_previous,
            final(self).fault == old(self).fault,
            !(old(self).scanline == 241 && old(self).cycle == 0) ==> {
                &&& final(self).render_scroll_x == old(self).render_scroll_x
                &&& final(self).render_scroll_y == old(self).render_scroll_y
                &&& final(self).render_nametable_addr == old(self).render_nametable_addr
            },
    {
        self.cycle = self.cycle + 1;

        let mut new_frame = false;

        if self.cycle > 340 {
            if self.is_sprite_zero_hit(self.cycle) {
                self.status.sprite_zero_hit = true;
            }

            self.cycle = 0;
            self.scanline = self.scanline + 1;

            if self.scanline > 261 {
                self.scanline = 0;
                self.frame = self.frame.wrapping_add(1);

                new_frame = true;
            }
        }

        if self.scanline == 241 && self.cycle == 1 {
            self.render_scroll_x = self.scroll.scroll_x;
            self.render_scroll_y = self.scroll.scroll_y;
            self.render_nametable_addr = self.ctrl.nametable_addr();

            self.status.vblank = true;
            self.nmi_occurred = true;
        }

        if self.scanline == 261 && self.cycle == 1 {
            self.status.sprite_overflow = false;
            self.status.sprite_zero_hit = false;
            self.status.vblank = false;
            self.nmi_occurred = false;
        }

        self.nmi_output = self.nmi_occurred && self.ctrl.generate_nmi();

        new_frame
    }

    /// Polls the NMI edge: true exactly when the level rose since the last
    /// poll. Consuming the edge records the level.
    pub fn poll_nmi(&mut self) -> (pending: bool)
        ensures
            pending == (!old(self).nmi_previous && old(self).nmi_output),
            *final(self) == (Ppu { nmi_previous: old(self).nmi_output, ..*old(self) }),
    {
        let pending = !self.nmi_previous && self.nmi_output;
        self.nmi_previous = self.nmi_output;
        pending
    }

    /// What a $2002 read returns and leaves behind: the status bits as they
    /// were, VBlank cleared, and the shared write latch reset.
    pub fn read_status(&mut self) -> (r: u8)
        ensures
            r == old(self).status.bits_spec(),
            !final(self).status.vblank,
            final(self).status.sprite_zero_hit == old(self).status.sprite_zero_hit,
            final(self).status.sprite_overflow == old(self).status.sprite_overflow,
            !final(self).nmi_occurred,
            final(self).addr == (PpuAddrRegister { latch: true, ..old(self).addr }),
            final(self).scroll == (PpuScrollRegister { latch: true, ..old(self).scroll }),
            *final(self) == (Ppu {
                status: final(self).status,
                nmi_occurred: false,
                addr: final(self).addr,
                scroll: final(self).scroll,
                ..*old(self)
            }),
    {
        let result = self.status.bits();

        self.status.vblank = false;
        self.nmi_occurred = false;
        self.addr.reset_latch();
        self.scroll.reset_latch();

        result
    }

    /// A $2004 read: the OAM byte under the OAM address, with no side effect.
    pub fn read_oam_data(&mut self) -> (r: u8)
        requires
            old(self).wf(),
        ensures
            *final(self) == *old(self),
            r == old(self).oam_data@[old(self).oam_addr as int],
    {
        self.oam_data[self.oam_addr as usize]
    }

    /// A $2007 read. CHR and VRAM go through the one-byte delay buffer: the
    /// caller receives the previous buffer and the buffer takes the byte
    /// under the address. Palette reads bypass the buffer. Every read moves
    /// the address register by the configured increment.
    pub fn read_data(&mut self, cart: &mut Cartridge) -> (r: u8)
        requires
            old(self).wf(),
        ensures
            final(self).wf(),
            final(self).cycle == old(self).cycle,
            final(self).scanline == old(self).scanline,
            final(self).frame == old(self).frame,
            *final(cart) == *old(cart),
            final(self).addr == old(self).addr.increment_spec(
                old(self).ctrl.vram_add_increment_spec(),
            ),
            ({
                let address = old(self).addr.get_spec();
                &&& (address < 0x2000 ==> r == old(self).internal_data_buffer && final(self).internal_data_buffer == old(cart).ppu_read_spec(address) && final(self).fault
                    == old(self).fault)
                &&& (0x2000 <= address < 0x3000 ==> r == old(self).internal_data_buffer && final(self).internal_data_buffer == old(self).vram@[mirror_vram_spec(
                    old(cart).mirroring,
                    address,
                )] && final(self).fault == old(self).fault)
                &&& (0x3000 <= address < 0x3F00 ==> r == 0 && final(self).fault)
                &&& (0x3F00 <= address ==> r == old(self).palette_table@[palette_index_spec(
                    address,
                )] && final(self).fault == old(self).fault)
            }),
            final(self).vram == old(self).vram,
            final(self).palette_table == old(self).palette_table,
            final(self).oam_data == old(self).oam_data,
            final(self).status == old(self).status,
            final(self).ctrl == old(self).ctrl,
    {
        let address = self.addr.get();
        proof {
            let hi = self.addr.hi;
            let lo = self.addr.lo;
            assert((((hi as u16) << 8) | (lo as u16)) < 0x4000) by (bit_vector)
                requires
                    hi < 0x40,
            ;
        }
        self.increment_vram_addr();

        if address < 0x2000 {
            let result = self.internal_data_buffer;
            self.internal_data_buffer = cart.ppu_read(address);
            result
        } else if address < 0x3000 {
            let result = self.internal_data_buffer;
            let index = self.mirror_vram_address(cart.mirroring, address);
            self.internal_data_buffer = self.vram[index as usize];
            result
        } else if address < 0x3F00 {
            self.fault = true;
            0
        } else {
            let index = Self::palette_index(address);
            self.palette_table[index as usize]
        }
    }

    /// A $2007 write: CHR-RAM, VRAM, or palette under the same mirroring as
    /// reads, then the address increment. The $3000-$3EFF window faults.
    pub fn write_data(&mut self, cart: &mut Cartridge, value: u8)
        requires
            old(self).wf(),
        ensures
            final(self).wf(),
            final(self).cycle == old(self).cycle,
            final(self).scanline == old(self).scanline,
            final(self).frame == old(self).frame,
            final(self).addr == old(self).addr.increment_spec(
                old(self).ctrl.vram_add_increment_spec(),
            ),
            ({
                let address = old(self).addr.get_spec();
                &&& (address < 0x2000 ==> final(cart).chr_ram@ == old(cart).ppu_write_ram_spec(
                    address,
                    value,
                ) && final(self).vram == old(self).vram && final(self).palette_table == old(self).palette_table && final(self).fault == old(self).fault)
                &&& (0x2000 <= address < 0x3000 ==> final(self).vram@ == old(self).vram@.update(
                    mirror_vram_spec(old(cart).mirroring, address),
                    value,
                ) && *final(cart) == *old(cart) && final(self).palette_table == old(self).palette_table && final(self).fault == old(self).fault)
                &&& (0x3000 <= address < 0x3F00 ==> final(self).fault && *final(cart) == *old(cart) && final(self).vram == old(self).vram && final(self).palette_table == old(self).palette_table)
                &&& (0x3F00 <= address ==> final(self).palette_table@ == old(self).palette_table@.update(palette_index_spec(address), value) && *final(cart)
                    == *old(cart) && final(self).vram == old(self).vram && final(self).fault
                    == old(self).fault)
            }),
            final(cart).prg_ram == old(cart).prg_ram,
            final(cart).prg_rom == old(cart).prg_rom,
            final(cart).chr_rom == old(cart).chr_rom,
            final(cart).mapper == old(cart).mapper,
            final(cart).mirroring == old(cart).mirroring,
            final(self).oam_data == old(self).oam_data,
            final(self).status == old(self).status,
            final(self).ctrl == old(self).ctrl,
            final(self).internal_data_buffer == old(self).internal_data_buffer,
    {
        let address = self.addr.get();
        proof {
            let hi = self.addr.hi;
            let lo = self.addr.lo;
            assert((((hi as u16) << 8) | (lo as u16)) < 0x4000) by (bit_vector)
                requires
                    hi < 0x40,
            ;
        }

        if address < 0x2000 {
            cart.ppu_write(address, value);
        } else if address < 0x3000 {
            let index = self.mirror_vram_address(cart.mirroring, address);
            self.vram[index as usize] = value;
        } else if address < 0x3F00 {
            self.fault = true;
        } else {
            let index = Self::palette_index(address);
            self.palette_table[index as usize] = value;
        }

        self.increment_vram_addr();
    }

    /// Folds a nametable address onto the 2-KiB VRAM.
    pub fn mirror_vram_address(&self, mirroring: Mirroring, address: u16) -> (r: u16)
        requires
            0x2000 <= address < 0x3000,
        ensures
            r == mirror_vram_spec(mirroring, address),
            r < 0x800,
    {
        proof {
            assert((address & 0x2FFF) == address) by (bit_vector)
                requires
                    0x2000 <= address < 0x3000,
            ;
        }
        let vram_index: u16 = (address & 0x2FFF) - 0x2000;
        let name_table: u16 = vram_index / 0x400;

        match mirroring {
            Mirroring::Vertical => {
                if name_table == 2 || name_table == 3 {
                    vram_index - 0x800
                } else {
                    vram_index
                }
            },
            Mirroring::Horizontal => {
                if name_table == 3 {
                    vram_index - 0x800
                } else if name_table == 1 || name_table == 2 {
                    vram_index - 0x400
                } else {
                    vram_index
                }
            },
            Mirroring::SingleScreenLower => vram_index % 0x400,
            Mirroring::SingleScreenUpper => 0x400 + vram_index % 0x400,
            Mirroring::FourScreen => vram_index % 0x800,
        }
    }

    /// Folds a palette address onto the 32-byte palette RAM.
    pub fn palette_index(address: u16) -> (r: u16)
        requires
            0x3F00 <= address,
        ensures
            r == palette_index_spec(address),
            r < 32,
    {
        let i: u16 = (address - 0x3F00) % 0x20;
        if i == 0x10 || i == 0x14 || i == 0x18 || i == 0x1C {
            i - 0x10
        } else {
            i
        }
    }

    /// A $2000 write. The NMI level follows the new enable bit at once, so
    /// setting it during VBlank re-arms the NMI without waiting for a tick.
    pub fn write_to_ppu_ctrl(&mut self, value: u8)
        ensures
            *final(self) == (Ppu {
                ctrl: (PpuCtrlRegister { bits: value }),
                nmi_output: old(self).nmi_occurred && (PpuCtrlRegister {
                    bits: value,
                }).generate_nmi_spec(),
                ..*old(self)
            }),
    {
        self.ctrl.update(value);
        self.nmi_output = self.nmi_occurred && self.ctrl.generate_nmi();
    }

    /// A $2001 write.
    pub fn write_to_ppu_mask(&mut self, value: u8)
        ensures
            *final(self) == (Ppu { mask: (PpuMaskRegister { bits: value }), ..*old(self) }),
    {
        self.mask.update(value);
    }

    /// A $2003 write.
    pub fn write_to_oam_addr(&mut self, value: u8)
        ensures
            *final(self) == (Ppu { oam_addr: value, ..*old(self) }),
    {
        self.oam_addr = value;
    }

    /// A $2004 write: stores under the OAM address, which then advances.
    pub fn write_to_oam_data(&mut self, value: u8)
        requires
            old(self).wf(),
        ensures
            final(self).oam_data@ == old(self).oam_data@.update(old(self).oam_addr as int, value),
            final(self).oam_addr == old(self).oam_addr.wrapping_add(1),
            *final(self) == (Ppu {
                oam_data: final(self).oam_data,
                oam_addr: final(self).oam_addr,
                ..*old(self)
            }),
    {
        self.oam_data[self.oam_addr as usize] = value;
        self.oam_addr = self.oam_addr.wrapping_add(1);
    }

    /// A $2005 write.
    pub fn write_to_ppu_scroll(&mut self, value: u8)
        ensures
            *final(self) == (Ppu { scroll: old(self).scroll.update_spec(value), ..*old(self) }),
    {
        self.scroll.update(value);
    }

    /// A $2006 write.
    pub fn write_to_ppu_addr(&mut self, value: u8)
        ensures
            *final(self) == (Ppu { addr: old(self).addr.update_spec(value), ..*old(self) }),
            final(self).addr.hi < 0x40,
    {
        self.addr.update(value);
    }

    /// OAM-DMA delivery: 256 bytes land in OAM starting at the current OAM
    /// address and wrapping, which ends up back where it started.
    pub fn write_to_oam_dma(&mut self, values: &[u8])
        requires
            old(self).wf(),
            values@.len() == 256,
        ensures
            final(self).wf(),
            forall|j: int|
                0 <= j < 256 ==> final(self).oam_data@[(old(self).oam_addr + j) % 256] == values@[j],
            final(self).oam_addr == old(self).oam_addr,
            *final(self) == (Ppu {
                oam_data: final(self).oam_data,
                oam_addr: final(self).oam_addr,
                ..*old(self)
            }),
    {
        let ghost addr0 = self.oam_addr as int;
        let mut i: usize = 0;
        while i < 256
            invariant
                self.wf(),
                i <= 256,
                values@.len() == 256,
                self.oam_addr == (addr0 + i) % 256,
                forall|j: int| 0 <= j < i ==> self.oam_data@[(addr0 + j) % 256] == values@[j],
                *self == (Ppu {
                    oam_data: self.oam_data,
                    oam_addr: self.oam_addr,
                    ..*old(self)
                }),
            decreases 256 - i,
        {
            self.write_to_oam_data(values[i]);
            proof {
                assert forall|j: int| 0 <= j < i implies #[trigger] ((addr0 + j) % 256) != (addr0
                    + i) % 256 by {
                    vstd::arithmetic::div_mod::lemma_fundamental_div_mod(addr0 + j, 256);
                    vstd::arithmetic::div_mod::lemma_fundamental_div_mod(addr0 + i, 256);
                }
                let a = (addr0 + i) % 256;
                vstd::arithmetic::div_mod::lemma_fundamental_div_mod(a + 1, 256);
                vstd::arithmetic::div_mod::lemma_fundamental_div_mod(addr0 + i + 1, 256);
                vstd::arithmetic::div_mod::lemma_fundamental_div_mod(addr0 + i, 256);
            }
            i = i + 1;
        }
        proof {
            vstd::arithmetic::div_mod::lemma_mod_add_multiples_vanish(addr0, 256);
            vstd::arithmetic::div_mod::lemma_small_mod(addr0 as nat, 256nat);
        }
    }

    /// A CPU read of the $2000-$2007 window: $2002, $2004, and $2007 respond;
    /// the write-only registers give open bus.
    pub fn cpu_read(&mut self, address: u16, cart: &mut Cartridge) -> (r: u8)
        requires
            old(self).wf(),
            0x2000 <= address <= 0x2007,
        ensures
            final(self).wf(),
            final(self).cycle == old(self).cycle,
            final(self).scanline == old(self).scanline,
            final(self).frame == old(self).frame,
            address == 0x2002 ==> {
                &&& r == old(self).status.bits_spec()
                &&& !final(self).status.vblank
                &&& final(self).status.sprite_zero_hit == old(self).status.sprite_zero_hit
                &&& final(self).status.sprite_overflow == old(self).status.sprite_overflow
                &&& final(self).addr == (PpuAddrRegister { latch: true, ..old(self).addr })
                &&& final(self).scroll == (PpuScrollRegister { latch: true, ..old(self).scroll })
                &&& *final(self) == (Ppu {
                    status: final(self).status,
                    nmi_occurred: false,
                    addr: final(self).addr,
                    scroll: final(self).scroll,
                    ..*old(self)
                })
            },
            address == 0x2004 ==> r == old(self).oam_data@[old(self).oam_addr as int] && *final(self) == *old(self),
            address == 0x2007 ==> ({
                let a = old(self).addr.get_spec();
                &&& final(self).addr == old(self).addr.increment_spec(
                    old(self).ctrl.vram_add_increment_spec(),
                )
                &&& (a < 0x2000 ==> r == old(self).internal_data_buffer && final(self).internal_data_buffer == old(cart).ppu_read_spec(a) && final(self).fault
                    == old(self).fault)
                &&& (0x2000 <= a < 0x3000 ==> r == old(self).internal_data_buffer && final(self).internal_data_buffer == old(self).vram@[mirror_vram_spec(
                    old(cart).mirroring,
                    a,
                )] && final(self).fault == old(self).fault)
                &&& (0x3000 <= a < 0x3F00 ==> r == 0 && final(self).fault)
                &&& (0x3F00 <= a ==> r == old(self).palette_table@[palette_index_spec(a)]
                    && final(self).fault == old(self).fault)
                &&& final(self).vram == old(self).vram
                &&& final(self).palette_table == old(self).palette_table
                &&& final(self).oam_data == old(self).oam_data
                &&& final(self).status == old(self).status
                &&& final(self).ctrl == old(self).ctrl
            }),
            address != 0x2002 && address != 0x2004 && address != 0x2007 ==> r == 0 && *final(self)
                == *old(self),
            *final(cart) == *old(cart),
    {
        if address == 0x2002 {
            self.read_status()
        } else if address == 0x2004 {
            self.read_oam_data()
        } else if address == 0x2007 {
            self.read_data(cart)
        } else {
            0
        }
    }

    /// A CPU write of the $2000-$2007 window; $2002 is read-only.
    pub fn cpu_write(&mut self, address: u16, value: u8, cart: &mut Cartridge)
        requires
            old(self).wf(),
            0x2000 <= address <= 0x2007,
        ensures
            final(self).wf(),
            final(self).cycle == old(self).cycle,
            final(self).scanline == old(self).scanline,
            final(self).frame == old(self).frame,
            address == 0x2000 ==> *final(self) == (Ppu {
                ctrl: (PpuCtrlRegister { bits: value }),
                nmi_output: old(self).nmi_occurred && (PpuCtrlRegister {
                    bits: value,
                }).generate_nmi_spec(),
                ..*old(self)
            }),
            address == 0x2001 ==> *final(self) == (Ppu {
                mask: (PpuMaskRegister { bits: value }),
                ..*old(self)
            }),
            address == 0x2002 ==> *final(self) == *old(self),
            address == 0x2003 ==> *final(self) == (Ppu { oam_addr: value, ..*old(self) }),
            address == 0x2005 ==> *final(self) == (Ppu {
                scroll: old(self).scroll.update_spec(value),
                ..*old(self)
            }),
            address == 0x2004 ==> final(self).oam_data@ == old(self).oam_data@.update(
                old(self).oam_addr as int,
                value,
            ) && final(self).oam_addr == old(self).oam_addr.wrapping_add(1) && *final(self) == (Ppu {
                oam_data: final(self).oam_data,
                oam_addr: final(self).oam_addr,
                ..*old(self)
            }),
            address == 0x2006 ==> *final(self) == (Ppu {
                addr: old(self).addr.update_spec(value),
                ..*old(self)
            }),
            address == 0x2007 ==> ({
                let a = old(self).addr.get_spec();
                &&& final(self).addr == old(self).addr.increment_spec(
                    old(self).ctrl.vram_add_increment_spec(),
                )
                &&& (a < 0x2000 ==> final(cart).chr_ram@ == old(cart).ppu_write_ram_spec(a, value)
                    && final(self).vram == old(self).vram && final(self).palette_table == old(self).palette_table && final(self).fault == old(self).fault)
                &&& (0x2000 <= a < 0x3000 ==> final(self).vram@ == old(self).vram@.update(
                    mirror_vram_spec(old(cart).mirroring, a),
                    value,
                ) && *final(cart) == *old(cart) && final(self).palette_table == old(self).palette_table && final(self).fault == old(self).fault)
                &&& (0x3000 <= a < 0x3F00 ==> final(self).fault && *final(cart) == *old(cart)
                    && final(self).vram == old(self).vram && final(self).palette_table == old(self).palette_table)
                &&& (0x3F00 <= a ==> final(self).palette_table@ == old(self).palette_table@.update(
                    palette_index_spec(a),
                    value,
                ) && *final(cart) == *old(cart) && final(self).vram == old(self).vram
                    && final(self).fault == old(self).fault)
                &&& final(self).oam_data == old(self).oam_data
                &&& final(self).status == old(self).status
                &&& final(self).ctrl == old(self).ctrl
                &&& final(self).internal_data_buffer == old(self).internal_data_buffer
            }),
            address != 0x2007 ==> *final(cart) == *old(cart),
    {
        if address == 0x2000 {
            self.write_to_ppu_ctrl(value);
        } else if address == 0x2001 {
            self.write_to_ppu_mask(value);
        } else if address == 0x2002 {
            // Read-only.
        } else if address == 0x2003 {
            self.write_to_oam_addr(value);
        } else if address == 0x2004 {
            self.write_to_oam_data(value);
        } else if address == 0x2005 {
            self.write_to_ppu_scroll(value);
        } else if address == 0x2006 {
            self.write_to_ppu_addr(value);
        } else {
            self.write_data(cart, value);
        }
    }

    fn increment_vram_addr(&mut self)
        ensures
            *final(self) == (Ppu {
                addr: old(self).addr.increment_spec(old(self).ctrl.vram_add_increment_spec()),
                ..*old(self)
            }),
            final(self).addr.hi < 0x40,
    {
        let increment = self.ctrl.vram_add_increment();
        self.addr.increment(increment);
    }
}


/// The palette mirroring pairs: reads and writes at $3F10, $3F14, $3F18,
/// and $3F1C land on the same cells as $3F00, $3F04, $3F08, and $3F0C.
pub proof fn lemma_palette_mirror_pairs()
    ensures
        palette_index_spec(0x3F10) == palette_index_spec(0x3F00),
        palette_index_spec(0x3F14) == palette_index_spec(0x3F04),
        palette_index_spec(0x3F18) == palette_index_spec(0x3F08),
        palette_index_spec(0x3F1C) == palette_index_spec(0x3F0C),
{
}

/// From any starting position, a tick reports a completed frame exactly
/// when it leaves position 89341 of the 341 by 262 grid, so any window of
/// 89342 consecutive ticks holds exactly one completion: one such index
/// exists, and no two distinct indices in the window can both wrap.
pub proof fn lemma_one_frame_wrap_per_window(p: int, k1: int, k2: int)
    requires
        0 <= p < 89342,
        0 <= k1 < k2 < 89342,
        (p + k1) % 89342 == 89341,
    ensures
        (p + k2) % 89342 != 89341,
{
    vstd::arithmetic::div_mod::lemma_fundamental_div_mod(p + k1, 89342);
    vstd::arithmetic::div_mod::lemma_fundamental_div_mod(p + k2, 89342);
}

/// The completing tick of a window always exists: it is the one that
/// starts at position 89341.
pub proof fn lemma_frame_wrap_exists(p: int)
    requires
        0 <= p < 89342,
    ensures
        0 <= (89341 - p) % 89342 < 89342,
        (p + (89341 - p) % 89342) % 89342 == 89341,
{
    if p == 0 {
        vstd::arithmetic::div_mod::lemma_small_mod(89341nat, 89342nat);
    } else {
        vstd::arithmetic::div_mod::lemma_fundamental_div_mod(89341 - p, 89342);
        vstd::arithmetic::div_mod::lemma_fundamental_div_mod(
            p + (89341 - p) % 89342,
            89342,
        );
    }
}

} // verus!
