//! A cycle-timed core for the Nintendo Entertainment System: a 6502 CPU with
//! the full documented and undocumented instruction set, a picture processing
//! unit, an audio processing unit, the iNES cartridge formats for mappers 0
//! and 2, and the bus that ties them together.

pub mod apu;
pub mod bus;
pub mod cartridge;
pub mod cpu;
pub mod emulator;
pub mod joypad;
pub mod ppu;
pub mod rom;
