//! The core of an emulator of the Game Boy in its first model, the DMG: the
//! SM83 processor, the memory map with its cartridge bank controllers, the
//! picture unit, the timers and the joypad register, advanced in lockstep by
//! machine cycles.

pub mod alu;
pub mod bits;
pub mod cartridge;
pub mod cpu;
pub mod frame;
pub mod gameboy;
pub mod interpreter;
pub mod joypad;
pub mod laws;
pub mod lcd;
pub mod memory;
pub mod opcodes;
pub mod ppu;
pub mod timers;
