//! The CPU-visible PPU register file: the latched two-write address and
//! scroll registers and the control, mask, and status flag sets.

pub mod addr;
pub mod ctrl;
pub mod mask;
pub mod scroll;
pub mod status;
