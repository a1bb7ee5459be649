//! The memory map of the target machine, as the generated code uses it.
//!
//! The image occupies the ROM half of the address space; everything the
//! running program writes lies in RAM from `0x8000` up.

use vstd::prelude::*;

verus! {

/// `V0` to `VF`, one byte each.
pub const CHIP8_V0: u16 = 0x8000;

/// The `I` register, two bytes, low byte first.
pub const CHIP8_I: u16 = 0x8010;

/// The CHIP-8 stack pointer, one byte counting 0 to 15.
pub const CHIP8_SP: u16 = 0x8012;

/// The delay timer.
pub const CHIP8_DT: u16 = 0x8013;

/// The sound timer.
pub const CHIP8_ST: u16 = 0x8014;

/// Scratch byte for the current key.
pub const CHIP8_KEY: u16 = 0x8015;

/// State of the random generator, two bytes.
pub const CHIP8_RNG: u16 = 0x8016;

/// The return-address stack: 16 entries of two bytes.
pub const CHIP8_STACK: u16 = 0x8100;

/// The display bitmap: 32 rows of 8 bytes, leftmost pixel in bit 7.
pub const DISPLAY_BUF: u16 = 0x8200;

/// The font bitmap: 16 glyphs of 5 bytes.
pub const FONT_DATA: u16 = 0x8300;

/// General CHIP-8 RAM; CHIP-8 address `0x200` maps to its first byte.
pub const CHIP8_RAM: u16 = 0x8400;

/// Control and status port of the serial controller.
pub const ACIA_CTRL: u8 = 0x80;

/// Data port of the serial controller.
pub const ACIA_DATA: u8 = 0x81;

/// The address of register `Vx`.
pub open spec fn vreg(x: u8) -> u16 {
    (CHIP8_V0 + x) as u16
}

} // verus!
