//! The two-write PPU scroll register ($2005): X scroll first, Y second.

use vstd::prelude::*;

verus! {

pub struct PpuScrollRegister {
    pub scroll_x: u8,
    pub scroll_y: u8,
    /// True when the next write lands in X.
    pub latch: bool,
}

impl PpuScrollRegister {
    /// The register after one CPU write: the latch picks the axis and flips.
    pub open spec fn update_spec(&self, value: u8) -> PpuScrollRegister {
        if self.latch {
            PpuScrollRegister { scroll_x: value, scroll_y: self.scroll_y, latch: false }
        } else {
            PpuScrollRegister { scroll_x: self.scroll_x, scroll_y: value, latch: true }
        }
    }

    pub fn new() -> (r: PpuScrollRegister)
        ensures
            r.scroll_x == 0,
            r.scroll_y == 0,
            r.latch == true,
    {
        PpuScrollRegister { scroll_x: 0, scroll_y: 0, latch: true }
    }

    pub fn update(&mut self, value: u8)
        ensures
            *final(self) == old(self).update_spec(value),
    {
        if self.latch {
            self.scroll_x = value;
        } else {
            self.scroll_y = value;
        }

        self.latch = !self.latch;
    }

    pub fn reset_latch(&mut self)
        ensures
            *final(self) == (PpuScrollRegister { latch: true, ..*old(self) }),
    {
        self.latch = true;
    }
}

} // verus!
