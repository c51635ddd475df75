//! The PPU mask register ($2001): greyscale, edge clipping, render enables,
//! and colour emphasis.

use vstd::prelude::*;

verus! {

/// A colour channel the mask register can emphasise.
#[derive(Clone, Copy, Debug, PartialEq, Eq, Structural)]
pub enum Colour {
    Red,
    Green,
    Blue,
}

pub struct PpuMaskRegister {
    pub bits: u8,
}

impl PpuMaskRegister {
    /// Bit 3: render the background.
    pub open spec fn show_background_spec(&self) -> bool {
        self.bits & 0x08 != 0
    }

    /// Bit 4: render sprites.
    pub open spec fn show_sprites_spec(&self) -> bool {
        self.bits & 0x10 != 0
    }

    pub fn new() -> (r: PpuMaskRegister)
        ensures
            r.bits == 0,
    {
        PpuMaskRegister { bits: 0 }
    }

    /// The channels the emphasis bits select, red then blue then green.
    pub open spec fn emphasize_spec(&self) -> Seq<Colour> {
        let s = Seq::<Colour>::empty();
        let s = if self.bits & 0x20 != 0 {
            s.push(Colour::Red)
        } else {
            s
        };
        let s = if self.bits & 0x80 != 0 {
            s.push(Colour::Blue)
        } else {
            s
        };
        if self.bits & 0x40 != 0 {
            s.push(Colour::Green)
        } else {
            s
        }
    }

    /// The emphasised channels, red before blue before green.
    pub fn emphasize(&self) -> (r: Vec<Colour>)
        ensures
            r@ == self.emphasize_spec(),
    {
        let mut result: Vec<Colour> = Vec::new();

        if self.bits & 0x20 != 0 {
            result.push(Colour::Red);
        }
        if self.bits & 0x80 != 0 {
            result.push(Colour::Blue);
        }
        if self.bits & 0x40 != 0 {
            result.push(Colour::Green);
        }

        proof {
            assert(result@ =~= self.emphasize_spec());
        }
        result
    }

    pub fn update(&mut self, value: u8)
        ensures
            final(self).bits == value,
    {
        self.bits = value;
    }

    pub fn show_background(&self) -> (r: bool)
        ensures
            r == self.show_background_spec(),
    {
        self.bits & 0x08 != 0
    }

    pub fn show_sprites(&self) -> (r: bool)
        ensures
            r == self.show_sprites_spec(),
    {
        self.bits & 0x10 != 0
    }
}

} // verus!
