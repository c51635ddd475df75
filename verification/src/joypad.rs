//! The shift-register joypad: a strobe latch, then one button bit per read
//! in the order A, B, Select, Start, Up, Down, Left, Right.

use vstd::prelude::*;

verus! {

/// One of the eight buttons on a standard controller.
#[derive(Clone, Copy, Debug, PartialEq, Eq, Structural)]
pub enum JoypadButton {
    A,
    B,
    Select,
    Start,
    Up,
    Down,
    Left,
    Right,
}

impl JoypadButton {
    /// The button's bit in the latched state byte.
    pub open spec fn mask_spec(&self) -> u8 {
        match self {
            JoypadButton::A => 0x01,
            JoypadButton::B => 0x02,
            JoypadButton::Select => 0x04,
            JoypadButton::Start => 0x08,
            JoypadButton::Up => 0x10,
            JoypadButton::Down => 0x20,
            JoypadButton::Left => 0x40,
            JoypadButton::Right => 0x80,
        }
    }

    pub fn mask(&self) -> (r: u8)
        ensures
            r == self.mask_spec(),
    {
        match self {
            JoypadButton::A => 0x01,
            JoypadButton::B => 0x02,
            JoypadButton::Select => 0x04,
            JoypadButton::Start => 0x08,
            JoypadButton::Up => 0x10,
            JoypadButton::Down => 0x20,
            JoypadButton::Left => 0x40,
            JoypadButton::Right => 0x80,
        }
    }
}

pub struct Joypad {
    pub strobe: bool,
    pub button_index: u8,
    pub button_states: u8,
}

impl Joypad {
    pub fn new() -> (r: Joypad)
        ensures
            r.strobe == false,
            r.button_index == 0,
            r.button_states == 0,
    {
        Joypad { strobe: false, button_index: 0, button_states: 0 }
    }

    /// A write to $4016: bit 0 is the strobe; raising it rewinds the shift
    /// register to button A.
    pub fn write(&mut self, value: u8)
        ensures
            final(self).strobe == (value & 1 == 1),
            final(self).button_index == if value & 1 == 1 {
                0u8
            } else {
                old(self).button_index
            },
            final(self).button_states == old(self).button_states,
    {
        self.strobe = value & 1 == 1;
        if self.strobe {
            self.button_index = 0;
        }
    }

    /// The bit a read returns: the indexed button while the first eight
    /// reads last, and 1 ever after.
    pub open spec fn read_value_spec(&self) -> u8 {
        if self.button_index > 7 {
            1u8
        } else {
            ((self.button_states >> self.button_index) & 1) as u8
        }
    }

    /// A read of $4016: returns one button bit and, unless the strobe is
    /// held, moves to the next button.
    pub fn read(&mut self) -> (r: u8)
        ensures
            r == old(self).read_value_spec(),
            final(self).strobe == old(self).strobe,
            final(self).button_states == old(self).button_states,
            final(self).button_index == if old(self).button_index <= 7 && !old(self).strobe {
                (old(self).button_index + 1) as u8
            } else {
                old(self).button_index
            },
    {
        if self.button_index > 7 {
            return 1;
        }

        let response: u8 = (self.button_states >> self.button_index) & 1;
        if !self.strobe {
            self.button_index = self.button_index + 1;
        }

        response
    }

    /// Latches or releases one button in the state byte.
    pub fn set_button_state(&mut self, button: JoypadButton, pressed: bool)
        ensures
            final(self).button_states == if pressed {
                (old(self).button_states | button.mask_spec()) as u8
            } else {
                (old(self).button_states & !button.mask_spec()) as u8
            },
            final(self).strobe == old(self).strobe,
            final(self).button_index == old(self).button_index,
    {
        if pressed {
            self.button_states = self.button_states | button.mask();
        } else {
            self.button_states = self.button_states & !button.mask();
        }
    }
}

} // verus!
