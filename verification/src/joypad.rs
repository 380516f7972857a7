//! The joypad: eight buttons, folded into the matrix register at 0xFF00.

use crate::memory::IORegs;
use vstd::prelude::*;

verus! {

/// The eight buttons.
#[derive(Debug, Clone, Copy, PartialEq, Eq)]
pub enum JoypadButton {
    Right,
    Left,
    Up,
    Down,
    A,
    B,
    Select,
    Start,
}

impl JoypadButton {
    /// The bit that stands for the button in the joypad state: the four
    /// directions in the low nibble, the four actions in the high one.
    pub open spec fn spec_mask(&self) -> u8 {
        match self {
            JoypadButton::Right => 0x01,
            JoypadButton::Left => 0x02,
            JoypadButton::Up => 0x04,
            JoypadButton::Down => 0x08,
            JoypadButton::A => 0x10,
            JoypadButton::B => 0x20,
            JoypadButton::Select => 0x40,
            JoypadButton::Start => 0x80,
        }
    }

    /// The bit that stands for the button in the joypad state.
    #[verifier::when_used_as_spec(spec_mask)]
    pub fn mask(&self) -> (r: u8)
        ensures
            r == self.spec_mask(),
    {
        match self {
            JoypadButton::Right => 0x01,
            JoypadButton::Left => 0x02,
            JoypadButton::Up => 0x04,
            JoypadButton::Down => 0x08,
            JoypadButton::A => 0x10,
            JoypadButton::B => 0x20,
            JoypadButton::Select => 0x40,
            JoypadButton::Start => 0x80,
        }
    }
}

/// The register 0xFF00 for a joypad state and the register's old value.
/// Bits 7 and 6 read as 1. Bits 5 and 4 are kept: a clear bit 5 selects the
/// actions, a clear bit 4 the directions. Bits 3 to 0 hold the selected
/// nibble of the state, both nibbles combined by AND when both are selected,
/// and read as 1 when none is; a pressed button reads as 0.
pub open spec fn joypad_register(state: u8, joyp: u8) -> u8 {
    let directions: u8 = if joyp & 0x10 == 0 {
        state | 0xF0
    } else {
        0xFF
    };
    let actions: u8 = if joyp & 0x20 == 0 {
        (state >> 4) | 0xF0
    } else {
        0xFF
    };
    (joyp | 0xCF) & directions & actions
}

/// The register keeps its two select bits and reads 1 in its two unused
/// bits, whatever the buttons do.
pub proof fn lemma_joypad_register_bits(state: u8, joyp: u8)
    by (bit_vector)
    ensures
        joypad_register(state, joyp) & 0xC0 == 0xC0,
        joypad_register(state, joyp) & 0x30 == joyp & 0x30,
{
}

/// The state of the eight buttons: one bit each, 0 for a pressed button and
/// 1 for a released one.
pub struct Joypad {
    state: u8,
}

impl View for Joypad {
    type V = u8;

    closed spec fn view(&self) -> u8 {
        self.state
    }
}

impl Joypad {
    /// A joypad with no button pressed.
    pub fn new() -> (r: Self)
        ensures
            r@ == 0xFF,
    {
        Joypad { state: 0xFF }
    }

    /// Presses a button: its bit is cleared.
    pub fn press(&mut self, button: JoypadButton)
        ensures
            final(self)@ == old(self)@ & !button.mask(),
    {
        self.state = self.state & !button.mask();
    }

    /// Releases a button: its bit is set.
    pub fn release(&mut self, button: JoypadButton)
        ensures
            final(self)@ == old(self)@ | button.mask(),
    {
        self.state = self.state | button.mask();
    }

    /// Writes the register 0xFF00 anew from the state of the buttons.
    pub fn tick(&self, io_regs: &mut IORegs)
        ensures
            final(io_regs)@ == old(io_regs)@.update(0, joypad_register(self@, old(io_regs)@[0])),
            final(io_regs)@[0] & 0xC0 == 0xC0,
            final(io_regs)@[0] & 0x30 == old(io_regs)@[0] & 0x30,
    {
        proof {
            io_regs.lemma_len();
            lemma_joypad_register_bits(self@, io_regs@[0]);
        }
        let joyp = io_regs.read(0xFF00);
        let directions: u8 = if joyp & 0x10 == 0 { self.state | 0xF0 } else { 0xFF };
        let actions: u8 = if joyp & 0x20 == 0 { (self.state >> 4) | 0xF0 } else { 0xFF };
        io_regs.write(0xFF00, (joyp | 0xCF) & directions & actions);
    }
}

impl Default for Joypad {
    fn default() -> (r: Self)
        ensures
            r@ == 0xFF,
    {
        Joypad::new()
    }
}

} // verus!
