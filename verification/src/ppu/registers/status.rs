//! The PPU status register ($2002): sprite overflow, sprite-0 hit, and the
//! VBlank flag, kept as flags and packed into a byte on read.

use vstd::prelude::*;

verus! {

#[derive(Clone, Copy, Debug, PartialEq, Eq, Structural)]
pub struct PpuStatusRegister {
    /// Bit 5: more than eight sprites met one scanline.
    pub sprite_overflow: bool,
    /// Bit 6: sprite 0 overlapped the background.
    pub sprite_zero_hit: bool,
    /// Bit 7: vertical blank has started.
    pub vblank: bool,
}

impl PpuStatusRegister {
    /// The byte a $2002 read reports; the undriven low bits read 0.
    pub open spec fn bits_spec(&self) -> u8 {
        ((if self.vblank {
            0x80u8
        } else {
            0u8
        }) | (if self.sprite_zero_hit {
            0x40u8
        } else {
            0u8
        }) | (if self.sprite_overflow {
            0x20u8
        } else {
            0u8
        })) as u8
    }

    pub fn new() -> (r: PpuStatusRegister)
        ensures
            !r.sprite_overflow,
            !r.sprite_zero_hit,
            !r.vblank,
    {
        PpuStatusRegister { sprite_overflow: false, sprite_zero_hit: false, vblank: false }
    }

    /// Packs the flags into the byte the data bus carries.
    pub fn bits(&self) -> (r: u8)
        ensures
            r == self.bits_spec(),
    {
        (if self.vblank {
            0x80u8
        } else {
            0u8
        }) | (if self.sprite_zero_hit {
            0x40u8
        } else {
            0u8
        }) | (if self.sprite_overflow {
            0x20u8
        } else {
            0u8
        })
    }
}

/// The packed status byte reports each flag in its own bit: VBlank in bit
/// 7, sprite-0 hit in bit 6, overflow in bit 5.
pub proof fn lemma_status_bits_faithful(s: PpuStatusRegister)
    ensures
        (s.bits_spec() & 0x80 != 0) == s.vblank,
        (s.bits_spec() & 0x40 != 0) == s.sprite_zero_hit,
        (s.bits_spec() & 0x20 != 0) == s.sprite_overflow,
{
    let v: u8 = if s.vblank { 0x80u8 } else { 0u8 };
    let h: u8 = if s.sprite_zero_hit { 0x40u8 } else { 0u8 };
    let o: u8 = if s.sprite_overflow { 0x20u8 } else { 0u8 };
    assert(((v | h | o) & 0x80 != 0) == (v == 0x80) && ((v | h | o) & 0x40 != 0) == (h == 0x40)
        && ((v | h | o) & 0x20 != 0) == (o == 0x20)) by (bit_vector)
        requires
            v == 0 || v == 0x80,
            h == 0 || h == 0x40,
            o == 0 || o == 0x20,
    ;
}

/// Two $2002 reads in a row: the first reports VBlank as it stood, and
/// since the read clears the flag, the second always reports VBlank 0.
pub proof fn lemma_vblank_reads_once(s: PpuStatusRegister)
    ensures
        (s.bits_spec() & 0x80 != 0) == s.vblank,
        (PpuStatusRegister { vblank: false, ..s }).bits_spec() & 0x80 == 0,
{
    lemma_status_bits_faithful(s);
    lemma_status_bits_faithful(PpuStatusRegister { vblank: false, ..s });
}

} // verus!
