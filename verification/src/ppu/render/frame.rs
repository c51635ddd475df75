//! The RGB framebuffer the rasteriser paints: 256 by 240 pixels, three
//! bytes each.

use vstd::prelude::*;

verus! {

/// One RGB triple.
#[derive(Clone, Copy, Debug, PartialEq, Eq, Structural)]
pub struct Colour(pub u8, pub u8, pub u8);

pub struct Frame {
    pub data: Vec<u8>,
}

impl Frame {
    /// Pixels per row.
    pub open spec fn width_spec() -> int {
        256
    }

    /// Rows per frame.
    pub open spec fn height_spec() -> int {
        240
    }

    /// The buffer holds three bytes for each of the 256 by 240 pixels.
    pub open spec fn wf(&self) -> bool {
        self.data@.len() == 256 * 240 * 3
    }

    pub fn new() -> (r: Frame)
        ensures
            r.wf(),
            forall|i: int| 0 <= i < 256 * 240 * 3 ==> r.data@[i] == 0u8,
    {
        Frame { data: crate::cartridge::zero_filled(256 * 240 * 3) }
    }

    /// Paints one pixel; coordinates that fall off the buffer are ignored.
    pub fn set_pixel(&mut self, x: usize, y: usize, colour: Colour)
        requires
            old(self).wf(),
            x <= 4096,
            y <= 4096,
        ensures
            final(self).wf(),
            ({
                let base = y * 3 * 256 + x * 3;
                &&& (base + 2 < 256 * 240 * 3 ==> final(self).data@ == old(self).data@.update(
                    base as int,
                    colour.0,
                ).update(base as int + 1, colour.1).update(base as int + 2, colour.2))
                &&& (base + 2 >= 256 * 240 * 3 ==> final(self).data@ == old(self).data@)
            }),
    {
        let base: usize = y * 3 * 256 + x * 3;
        if base + 2 < 256 * 240 * 3 {
            self.data[base] = colour.0;
            self.data[base + 1] = colour.1;
            self.data[base + 2] = colour.2;
        }
    }
}

} // verus!
