//! The runtime: the fixed Z80 routines that every image carries, and the
//! start-up code that runs before the translated program.

use crate::codegen::Compiler;
use crate::error::CompileError;
use crate::image::{grows, lemma_grows_refl, lemma_grows_trans, Asm};
use crate::label::{Label, Routine};
use crate::layout::{
    ACIA_CTRL, ACIA_DATA, CHIP8_RNG, CHIP8_V0, DISPLAY_BUF, FONT_DATA,
};
use vstd::prelude::*;

verus! {

/// Start-up: point the Z80 stack at the top of RAM, set up the serial
/// port, zero the 32 bytes of CHIP-8 state from `V0` on, seed the random
/// generator, clear the screen, copy the font, print the banner and enter
/// the translated program.
#[verifier::opaque]
pub open spec fn init(s: Asm) -> Asm {
    s
        /* init:                  */ .def(Label::Routine(Routine::Init))
        /* LD SP, 0x0000          */ .byte(0x31).word(0x0000)
        /* CALL acia_init         */ .byte(0xCD).refer(Label::Routine(Routine::AciaInit))
        /* LD HL, CHIP8_V0        */ .byte(0x21).word(CHIP8_V0)
        /* LD BC, 32              */ .byte(0x01).word(32)
        /* init_clear:            */ .def(Label::Routine(Routine::InitClear))
        /* XOR A                  */ .byte(0xAF)
        /* LD (HL), A             */ .byte(0x77)
        /* INC HL                 */ .byte(0x23)
        /* DEC BC                 */ .byte(0x0B)
        /* LD A, B                */ .byte(0x78)
        /* OR C                   */ .byte(0xB1)
        /* JP NZ, init_clear      */ .byte(0xC2).refer(Label::Routine(Routine::InitClear))
        /* LD HL, CHIP8_RNG       */ .byte(0x21).word(CHIP8_RNG)
        /* LD A, 0xAC             */ .byte(0x3E).byte(0xAC)
        /* LD (HL), A             */ .byte(0x77)
        /* INC HL                 */ .byte(0x23)
        /* LD A, 0xE1             */ .byte(0x3E).byte(0xE1)
        /* LD (HL), A             */ .byte(0x77)
        /* CALL cls               */ .byte(0xCD).refer(Label::Routine(Routine::Cls))
        /* CALL copy_font         */ .byte(0xCD).refer(Label::Routine(Routine::CopyFont))
        /* CALL print_banner      */ .byte(0xCD).refer(Label::Routine(Routine::PrintBanner))
        /* JP main                */ .byte(0xC3).refer(Label::Routine(Routine::Main))
}

/// Serial port set-up: master reset, then 8 data bits, no parity, one stop
/// bit at a sixteenth of the clock.
#[verifier::opaque]
pub open spec fn acia_init(s: Asm) -> Asm {
    s
        /* acia_init:             */ .def(Label::Routine(Routine::AciaInit))
        /* LD A, 0x03             */ .byte(0x3E).byte(0x03)
        /* OUT (ACIA_CTRL), A     */ .byte(0xD3).byte(ACIA_CTRL)
        /* LD A, 0x15             */ .byte(0x3E).byte(0x15)
        /* OUT (ACIA_CTRL), A     */ .byte(0xD3).byte(ACIA_CTRL)
        /* RET                    */ .byte(0xC9)
}

/// Send the byte in `A`: wait until the transmitter is ready, then write
/// the data port. `A` is preserved.
#[verifier::opaque]
pub open spec fn print_char(s: Asm) -> Asm {
    s
        /* print_char:            */ .def(Label::Routine(Routine::PrintChar))
        /* PUSH AF                */ .byte(0xF5)
        /* print_wait:            */ .def(Label::Routine(Routine::PrintWait))
        /* IN A, (ACIA_CTRL)      */ .byte(0xDB).byte(ACIA_CTRL)
        /* AND 0x02               */ .byte(0xE6).byte(0x02)
        /* JP Z, print_wait       */ .byte(0xCA).refer(Label::Routine(Routine::PrintWait))
        /* POP AF                 */ .byte(0xF1)
        /* OUT (ACIA_DATA), A     */ .byte(0xD3).byte(ACIA_DATA)
        /* RET                    */ .byte(0xC9)
}

/// Print the bytes at `banner_str` up to the terminating zero.
#[verifier::opaque]
pub open spec fn print_banner(s: Asm) -> Asm {
    s
        /* print_banner:          */ .def(Label::Routine(Routine::PrintBanner))
        /* LD HL, banner_str      */ .byte(0x21).refer(Label::Routine(Routine::BannerStr))
        /* print_str_loop:        */ .def(Label::Routine(Routine::PrintStrLoop))
        /* LD A, (HL)             */ .byte(0x7E)
        /* OR A                   */ .byte(0xB7)
        /* RET Z                  */ .byte(0xC8)
        /* CALL print_char        */ .byte(0xCD).refer(Label::Routine(Routine::PrintChar))
        /* INC HL                 */ .byte(0x23)
        /* JP print_str_loop      */ .byte(0xC3).refer(Label::Routine(Routine::PrintStrLoop))
}

/// The banner text `CHIP-8 on Z80`, a line break and a terminating zero.
#[verifier::opaque]
pub open spec fn banner_str(s: Asm) -> Asm {
    s
        /* banner_str:            */ .def(Label::Routine(Routine::BannerStr))
        /* DB 0x43                */ .byte(0x43)
        /* DB 0x48                */ .byte(0x48)
        /* DB 0x49                */ .byte(0x49)
        /* DB 0x50                */ .byte(0x50)
        /* DB 0x2D                */ .byte(0x2D)
        /* DB 0x38                */ .byte(0x38)
        /* DB 0x20                */ .byte(0x20)
        /* DB 0x6F                */ .byte(0x6F)
        /* DB 0x6E                */ .byte(0x6E)
        /* DB 0x20                */ .byte(0x20)
        /* DB 0x5A                */ .byte(0x5A)
        /* DB 0x38                */ .byte(0x38)
        /* DB 0x30                */ .byte(0x30)
        /* DB 0x0D                */ .byte(0x0D)
        /* DB 0x0A                */ .byte(0x0A)
        /* DB 0                   */ .byte(0)
}

/// Zero the 256 bytes of the display bitmap, then continue in
/// `refresh_display`.
#[verifier::opaque]
pub open spec fn cls(s: Asm) -> Asm {
    s
        /* cls:                   */ .def(Label::Routine(Routine::Cls))
        /* LD HL, DISPLAY_BUF     */ .byte(0x21).word(DISPLAY_BUF)
        /* LD BC, 256             */ .byte(0x01).word(256)
        /* cls_loop:              */ .def(Label::Routine(Routine::ClsLoop))
        /* XOR A                  */ .byte(0xAF)
        /* LD (HL), A             */ .byte(0x77)
        /* INC HL                 */ .byte(0x23)
        /* DEC BC                 */ .byte(0x0B)
        /* LD A, B                */ .byte(0x78)
        /* OR C                   */ .byte(0xB1)
        /* JP NZ, cls_loop        */ .byte(0xC2).refer(Label::Routine(Routine::ClsLoop))
        /* JP refresh_display     */ .byte(0xC3).refer(Label::Routine(Routine::RefreshDisplay))
}

/// Copy the 80 bytes of the font table to the font area in RAM.
#[verifier::opaque]
pub open spec fn copy_font(s: Asm) -> Asm {
    s
        /* copy_font:             */ .def(Label::Routine(Routine::CopyFont))
        /* LD HL, font_rom        */ .byte(0x21).refer(Label::Routine(Routine::FontRom))
        /* LD DE, FONT_DATA       */ .byte(0x11).word(FONT_DATA)
        /* LD BC, 80              */ .byte(0x01).word(80)
        /* copy_font_loop:        */ .def(Label::Routine(Routine::CopyFontLoop))
        /* LD A, (HL)             */ .byte(0x7E)
        /* LD (DE), A             */ .byte(0x12)
        /* INC HL                 */ .byte(0x23)
        /* INC DE                 */ .byte(0x13)
        /* DEC BC                 */ .byte(0x0B)
        /* LD A, B                */ .byte(0x78)
        /* OR C                   */ .byte(0xB1)
        /* JP NZ, copy_font_loop  */ .byte(0xC2).refer(Label::Routine(Routine::CopyFontLoop))
        /* RET                    */ .byte(0xC9)
}

/// The font table: glyphs `0` to `F`, five rows each, in the high nibble.
#[verifier::opaque]
pub open spec fn font_rom(s: Asm) -> Asm {
    s
        /* font_rom:              */ .def(Label::Routine(Routine::FontRom))
        /* DB 0xF0                */ .byte(0xF0)
        /* DB 0x90                */ .byte(0x90)
        /* DB 0x90                */ .byte(0x90)
        /* DB 0x90                */ .byte(0x90)
        /* DB 0xF0                */ .byte(0xF0)
        /* DB 0x20                */ .byte(0x20)
        /* DB 0x60                */ .byte(0x60)
        /* DB 0x20                */ .byte(0x20)
        /* DB 0x20                */ .byte(0x20)
        /* DB 0x70                */ .byte(0x70)
        /* DB 0xF0                */ .byte(0xF0)
        /* DB 0x10                */ .byte(0x10)
        /* DB 0xF0                */ .byte(0xF0)
        /* DB 0x80                */ .byte(0x80)
        /* DB 0xF0                */ .byte(0xF0)
        /* DB 0xF0                */ .byte(0xF0)
        /* DB 0x10                */ .byte(0x10)
        /* DB 0xF0                */ .byte(0xF0)
        /* DB 0x10                */ .byte(0x10)
        /* DB 0xF0                */ .byte(0xF0)
        /* DB 0x90                */ .byte(0x90)
        /* DB 0x90                */ .byte(0x90)
        /* DB 0xF0                */ .byte(0xF0)
        /* DB 0x10                */ .byte(0x10)
        /* DB 0x10                */ .byte(0x10)
        /* DB 0xF0                */ .byte(0xF0)
        /* DB 0x80                */ .byte(0x80)
        /* DB 0xF0                */ .byte(0xF0)
        /* DB 0x10                */ .byte(0x10)
        /* DB 0xF0                */ .byte(0xF0)
        /* DB 0xF0                */ .byte(0xF0)
        /* DB 0x80                */ .byte(0x80)
        /* DB 0xF0                */ .byte(0xF0)
        /* DB 0x90                */ .byte(0x90)
        /* DB 0xF0                */ .byte(0xF0)
        /* DB 0xF0                */ .byte(0xF0)
        /* DB 0x10                */ .byte(0x10)
        /* DB 0x20                */ .byte(0x20)
        /* DB 0x40                */ .byte(0x40)
        /* DB 0x40                */ .byte(0x40)
        /* DB 0xF0                */ .byte(0xF0)
        /* DB 0x90                */ .byte(0x90)
        /* DB 0xF0                */ .byte(0xF0)
        /* DB 0x90                */ .byte(0x90)
        /* DB 0xF0                */ .byte(0xF0)
        /* DB 0xF0                */ .byte(0xF0)
        /* DB 0x90                */ .byte(0x90)
        /* DB 0xF0                */ .byte(0xF0)
        /* DB 0x10                */ .byte(0x10)
        /* DB 0xF0                */ .byte(0xF0)
        /* DB 0xF0                */ .byte(0xF0)
        /* DB 0x90                */ .byte(0x90)
        /* DB 0xF0                */ .byte(0xF0)
        /* DB 0x90                */ .byte(0x90)
        /* DB 0x90                */ .byte(0x90)
        /* DB 0xE0                */ .byte(0xE0)
        /* DB 0x90                */ .byte(0x90)
        /* DB 0xE0                */ .byte(0xE0)
        /* DB 0x90                */ .byte(0x90)
        /* DB 0xE0                */ .byte(0xE0)
        /* DB 0xF0                */ .byte(0xF0)
        /* DB 0x80                */ .byte(0x80)
        /* DB 0x80                */ .byte(0x80)
        /* DB 0x80                */ .byte(0x80)
        /* DB 0xF0                */ .byte(0xF0)
        /* DB 0xE0                */ .byte(0xE0)
        /* DB 0x90                */ .byte(0x90)
        /* DB 0x90                */ .byte(0x90)
        /* DB 0x90                */ .byte(0x90)
        /* DB 0xE0                */ .byte(0xE0)
        /* DB 0xF0                */ .byte(0xF0)
        /* DB 0x80                */ .byte(0x80)
        /* DB 0xF0                */ .byte(0xF0)
        /* DB 0x80                */ .byte(0x80)
        /* DB 0xF0                */ .byte(0xF0)
        /* DB 0xF0                */ .byte(0xF0)
        /* DB 0x80                */ .byte(0x80)
        /* DB 0xF0                */ .byte(0xF0)
        /* DB 0x80                */ .byte(0x80)
        /* DB 0x80                */ .byte(0x80)
}

/// Step the 16-bit generator state `x` by `x ^= x << 7`, `x ^= x >> 9`,
/// `x ^= x << 8`, and return its low byte in `A`. From a nonzero state
/// the generator runs through all 65535 nonzero states before it repeats.
#[verifier::opaque]
pub open spec fn rng(s: Asm) -> Asm {
    s
        /* rng:                   */ .def(Label::Routine(Routine::Rng))
        /* LD HL, CHIP8_RNG       */ .byte(0x21).word(CHIP8_RNG)
        /* LD A, (HL)             */ .byte(0x7E)
        /* INC HL                 */ .byte(0x23)
        /* LD H, (HL)             */ .byte(0x66)
        /* LD L, A                */ .byte(0x6F)
        /* LD A, H                */ .byte(0x7C)
        /* RRA                    */ .byte(0x1F)
        /* LD A, L                */ .byte(0x7D)
        /* RRA                    */ .byte(0x1F)
        /* XOR H                  */ .byte(0xAC)
        /* LD H, A                */ .byte(0x67)
        /* LD A, L                */ .byte(0x7D)
        /* RRA                    */ .byte(0x1F)
        /* LD A, H                */ .byte(0x7C)
        /* RRA                    */ .byte(0x1F)
        /* XOR L                  */ .byte(0xAD)
        /* LD L, A                */ .byte(0x6F)
        /* XOR H                  */ .byte(0xAC)
        /* LD H, A                */ .byte(0x67)
        /* EX DE, HL              */ .byte(0xEB)
        /* LD HL, CHIP8_RNG       */ .byte(0x21).word(CHIP8_RNG)
        /* LD A, E                */ .byte(0x7B)
        /* LD (HL), A             */ .byte(0x77)
        /* INC HL                 */ .byte(0x23)
        /* LD A, D                */ .byte(0x7A)
        /* LD (HL), A             */ .byte(0x77)
        /* LD A, E                */ .byte(0x7B)
        /* RET                    */ .byte(0xC9)
}

/// Poll the serial port. With no byte waiting `A` is 0; a hex digit gives
/// its value 0 to 15; any other byte gives `0xFF`.
#[verifier::opaque]
pub open spec fn get_key(s: Asm) -> Asm {
    s
        /* get_key:               */ .def(Label::Routine(Routine::GetKey))
        /* IN A, (ACIA_CTRL)      */ .byte(0xDB).byte(ACIA_CTRL)
        /* AND 0x01               */ .byte(0xE6).byte(0x01)
        /* RET Z                  */ .byte(0xC8)
        /* IN A, (ACIA_DATA)      */ .byte(0xDB).byte(ACIA_DATA)
        /* CP 0x30                */ .byte(0xFE).byte(0x30)
        /* JP C, get_key_alpha    */ .byte(0xDA).refer(Label::Routine(Routine::GetKeyAlpha))
        /* CP 0x3A                */ .byte(0xFE).byte(0x3A)
        /* JP NC, get_key_alpha   */ .byte(0xD2).refer(Label::Routine(Routine::GetKeyAlpha))
        /* SUB 0x30               */ .byte(0xD6).byte(0x30)
        /* RET                    */ .byte(0xC9)
        /* get_key_alpha:         */ .def(Label::Routine(Routine::GetKeyAlpha))
        /* CP 0x61                */ .byte(0xFE).byte(0x61)
        /* JP C, get_key_upper    */ .byte(0xDA).refer(Label::Routine(Routine::GetKeyUpper))
        /* CP 0x67                */ .byte(0xFE).byte(0x67)
        /* JP NC, get_key_none    */ .byte(0xD2).refer(Label::Routine(Routine::GetKeyNone))
        /* SUB 0x57               */ .byte(0xD6).byte(0x57)
        /* RET                    */ .byte(0xC9)
        /* get_key_upper:         */ .def(Label::Routine(Routine::GetKeyUpper))
        /* CP 0x41                */ .byte(0xFE).byte(0x41)
        /* JP C, get_key_none     */ .byte(0xDA).refer(Label::Routine(Routine::GetKeyNone))
        /* CP 0x47                */ .byte(0xFE).byte(0x47)
        /* JP NC, get_key_none    */ .byte(0xD2).refer(Label::Routine(Routine::GetKeyNone))
        /* SUB 0x37               */ .byte(0xD6).byte(0x37)
        /* RET                    */ .byte(0xC9)
        /* get_key_none:          */ .def(Label::Routine(Routine::GetKeyNone))
        /* LD A, 0xFF             */ .byte(0x3E).byte(0xFF)
        /* RET                    */ .byte(0xC9)
}

/// Poll `get_key` until it answers something other than `0xFF`.
#[verifier::opaque]
pub open spec fn wait_key(s: Asm) -> Asm {
    s
        /* wait_key:              */ .def(Label::Routine(Routine::WaitKey))
        /* CALL get_key           */ .byte(0xCD).refer(Label::Routine(Routine::GetKey))
        /* CP 0xFF                */ .byte(0xFE).byte(0xFF)
        /* JP Z, wait_key         */ .byte(0xCA).refer(Label::Routine(Routine::WaitKey))
        /* RET                    */ .byte(0xC9)
}

/// XOR `B` sprite rows at `HL` into the bitmap at `DE`, eight bytes apart,
/// and return 1 in `A` if any lit pixel was erased, else 0.
#[verifier::opaque]
pub open spec fn draw_sprite(s: Asm) -> Asm {
    s
        /* draw_sprite:           */ .def(Label::Routine(Routine::DrawSprite))
        /* XOR A                  */ .byte(0xAF)
        /* LD C, A                */ .byte(0x4F)
        /* draw_row:              */ .def(Label::Routine(Routine::DrawRow))
        /* LD A, (HL)             */ .byte(0x7E)
        /* PUSH HL                */ .byte(0xE5)
        /* PUSH DE                */ .byte(0xD5)
        /* EX DE, HL              */ .byte(0xEB)
        /* LD E, A                */ .byte(0x5F)
        /* LD A, (HL)             */ .byte(0x7E)
        /* PUSH AF                */ .byte(0xF5)
        /* LD A, E                */ .byte(0x7B)
        /* XOR (HL)               */ .byte(0xAE)
        /* LD (HL), A             */ .byte(0x77)
        /* POP AF                 */ .byte(0xF1)
        /* AND E                  */ .byte(0xA3)
        /* OR C                   */ .byte(0xB1)
        /* LD C, A                */ .byte(0x4F)
        /* POP DE                 */ .byte(0xD1)
        /* POP HL                 */ .byte(0xE1)
        /* INC HL                 */ .byte(0x23)
        /* PUSH HL                */ .byte(0xE5)
        /* LD HL, 8               */ .byte(0x21).word(8)
        /* ADD HL, DE             */ .byte(0x19)
        /* EX DE, HL              */ .byte(0xEB)
        /* POP HL                 */ .byte(0xE1)
        /* DEC B                  */ .byte(0x05)
        /* JP NZ, draw_row        */ .byte(0xC2).refer(Label::Routine(Routine::DrawRow))
        /* LD A, C                */ .byte(0x79)
        /* OR A                   */ .byte(0xB7)
        /* RET Z                  */ .byte(0xC8)
        /* LD A, 1                */ .byte(0x3E).byte(1)
        /* RET                    */ .byte(0xC9)
}

/// Home the cursor below the banner, then print the bitmap: 32 lines of
/// 64 characters, `#` for a lit pixel and a space for a dark one.
#[verifier::opaque]
pub open spec fn refresh_display(s: Asm) -> Asm {
    s
        /* refresh_display:       */ .def(Label::Routine(Routine::RefreshDisplay))
        /* LD A, 0x1B             */ .byte(0x3E).byte(0x1B)
        /* CALL print_char        */ .byte(0xCD).refer(Label::Routine(Routine::PrintChar))
        /* LD A, 0x5B             */ .byte(0x3E).byte(0x5B)
        /* CALL print_char        */ .byte(0xCD).refer(Label::Routine(Routine::PrintChar))
        /* LD A, 0x32             */ .byte(0x3E).byte(0x32)
        /* CALL print_char        */ .byte(0xCD).refer(Label::Routine(Routine::PrintChar))
        /* LD A, 0x3B             */ .byte(0x3E).byte(0x3B)
        /* CALL print_char        */ .byte(0xCD).refer(Label::Routine(Routine::PrintChar))
        /* LD A, 0x31             */ .byte(0x3E).byte(0x31)
        /* CALL print_char        */ .byte(0xCD).refer(Label::Routine(Routine::PrintChar))
        /* LD A, 0x48             */ .byte(0x3E).byte(0x48)
        /* CALL print_char        */ .byte(0xCD).refer(Label::Routine(Routine::PrintChar))
        /* LD HL, DISPLAY_BUF     */ .byte(0x21).word(DISPLAY_BUF)
        /* LD D, 32               */ .byte(0x16).byte(32)
        /* refresh_row:           */ .def(Label::Routine(Routine::RefreshRow))
        /* LD E, 8                */ .byte(0x1E).byte(8)
        /* refresh_byte:          */ .def(Label::Routine(Routine::RefreshByte))
        /* LD A, (HL)             */ .byte(0x7E)
        /* LD B, 8                */ .byte(0x06).byte(8)
        /* refresh_bit:           */ .def(Label::Routine(Routine::RefreshBit))
        /* RLC A                  */ .byte(0xCB).byte(0x07)
        /* PUSH AF                */ .byte(0xF5)
        /* JP NC, refresh_space   */ .byte(0xD2).refer(Label::Routine(Routine::RefreshSpace))
        /* LD A, 0x23             */ .byte(0x3E).byte(0x23)
        /* JP refresh_out         */ .byte(0xC3).refer(Label::Routine(Routine::RefreshOut))
        /* refresh_space:         */ .def(Label::Routine(Routine::RefreshSpace))
        /* LD A, 0x20             */ .byte(0x3E).byte(0x20)
        /* refresh_out:           */ .def(Label::Routine(Routine::RefreshOut))
        /* CALL print_char        */ .byte(0xCD).refer(Label::Routine(Routine::PrintChar))
        /* POP AF                 */ .byte(0xF1)
        /* DEC B                  */ .byte(0x05)
        /* JP NZ, refresh_bit     */ .byte(0xC2).refer(Label::Routine(Routine::RefreshBit))
        /* INC HL                 */ .byte(0x23)
        /* DEC E                  */ .byte(0x1D)
        /* JP NZ, refresh_byte    */ .byte(0xC2).refer(Label::Routine(Routine::RefreshByte))
        /* LD A, 0x0D             */ .byte(0x3E).byte(0x0D)
        /* CALL print_char        */ .byte(0xCD).refer(Label::Routine(Routine::PrintChar))
        /* LD A, 0x0A             */ .byte(0x3E).byte(0x0A)
        /* CALL print_char        */ .byte(0xCD).refer(Label::Routine(Routine::PrintChar))
        /* DEC D                  */ .byte(0x15)
        /* JP NZ, refresh_row     */ .byte(0xC2).refer(Label::Routine(Routine::RefreshRow))
        /* RET                    */ .byte(0xC9)
}

/// The whole runtime, in the order it is laid out.
pub open spec fn runtime(s: Asm) -> Asm {
    let s = acia_init(s);
    let s = print_char(s);
    let s = print_banner(s);
    let s = banner_str(s);
    let s = cls(s);
    let s = copy_font(s);
    let s = font_rom(s);
    let s = rng(s);
    let s = get_key(s);
    let s = wait_key(s);
    let s = draw_sprite(s);
    let s = refresh_display(s);
    s
}

/// `l` is one of the positions that the runtime defines.
pub open spec fn is_runtime_label(l: Label) -> bool {
    l == Label::Routine(Routine::AciaInit)
        || l == Label::Routine(Routine::PrintChar)
        || l == Label::Routine(Routine::PrintWait)
        || l == Label::Routine(Routine::PrintBanner)
        || l == Label::Routine(Routine::PrintStrLoop)
        || l == Label::Routine(Routine::BannerStr)
        || l == Label::Routine(Routine::Cls)
        || l == Label::Routine(Routine::ClsLoop)
        || l == Label::Routine(Routine::CopyFont)
        || l == Label::Routine(Routine::CopyFontLoop)
        || l == Label::Routine(Routine::FontRom)
        || l == Label::Routine(Routine::Rng)
        || l == Label::Routine(Routine::GetKey)
        || l == Label::Routine(Routine::GetKeyAlpha)
        || l == Label::Routine(Routine::GetKeyUpper)
        || l == Label::Routine(Routine::GetKeyNone)
        || l == Label::Routine(Routine::WaitKey)
        || l == Label::Routine(Routine::DrawSprite)
        || l == Label::Routine(Routine::DrawRow)
        || l == Label::Routine(Routine::RefreshDisplay)
        || l == Label::Routine(Routine::RefreshRow)
        || l == Label::Routine(Routine::RefreshByte)
        || l == Label::Routine(Routine::RefreshBit)
        || l == Label::Routine(Routine::RefreshSpace)
        || l == Label::Routine(Routine::RefreshOut)
}

/// No position of the runtime has been defined yet.
pub open spec fn runtime_fresh(s: Asm) -> bool {
    forall|l: Label| is_runtime_label(l) ==> !(#[trigger] s.labels.contains_key(l))
}

/// [`init`] continues the state it is given, and defines its own labels
/// and no others.
pub proof fn lemma_init(s: Asm)
    requires
        s.fresh(Label::Routine(Routine::Init)),
        s.fresh(Label::Routine(Routine::InitClear)),
    ensures
        grows(s, init(s)),
        forall|l: Label|
            #![trigger init(s).labels.contains_key(l)]
            init(s).labels.contains_key(l) <==> s.labels.contains_key(l)
                || l == Label::Routine(Routine::Init)
                || l == Label::Routine(Routine::InitClear),
{
    reveal(init);
    reveal(grows);
}

/// [`acia_init`] continues the state it is given, and defines its own labels
/// and no others.
pub proof fn lemma_acia_init(s: Asm)
    requires
        s.fresh(Label::Routine(Routine::AciaInit)),
    ensures
        grows(s, acia_init(s)),
        forall|l: Label|
            #![trigger acia_init(s).labels.contains_key(l)]
            acia_init(s).labels.contains_key(l) <==> s.labels.contains_key(l)
                || l == Label::Routine(Routine::AciaInit),
{
    reveal(acia_init);
    reveal(grows);
}

/// [`print_char`] continues the state it is given, and defines its own labels
/// and no others.
pub proof fn lemma_print_char(s: Asm)
    requires
        s.fresh(Label::Routine(Routine::PrintChar)),
        s.fresh(Label::Routine(Routine::PrintWait)),
    ensures
        grows(s, print_char(s)),
        forall|l: Label|
            #![trigger print_char(s).labels.contains_key(l)]
            print_char(s).labels.contains_key(l) <==> s.labels.contains_key(l)
                || l == Label::Routine(Routine::PrintChar)
                || l == Label::Routine(Routine::PrintWait),
{
    reveal(print_char);
    reveal(grows);
}

/// [`print_banner`] continues the state it is given, and defines its own labels
/// and no others.
pub proof fn lemma_print_banner(s: Asm)
    requires
        s.fresh(Label::Routine(Routine::PrintBanner)),
        s.fresh(Label::Routine(Routine::PrintStrLoop)),
    ensures
        grows(s, print_banner(s)),
        forall|l: Label|
            #![trigger print_banner(s).labels.contains_key(l)]
            print_banner(s).labels.contains_key(l) <==> s.labels.contains_key(l)
                || l == Label::Routine(Routine::PrintBanner)
                || l == Label::Routine(Routine::PrintStrLoop),
{
    reveal(print_banner);
    reveal(grows);
}

/// [`banner_str`] continues the state it is given, and defines its own labels
/// and no others.
pub proof fn lemma_banner_str(s: Asm)
    requires
        s.fresh(Label::Routine(Routine::BannerStr)),
    ensures
        grows(s, banner_str(s)),
        forall|l: Label|
            #![trigger banner_str(s).labels.contains_key(l)]
            banner_str(s).labels.contains_key(l) <==> s.labels.contains_key(l)
                || l == Label::Routine(Routine::BannerStr),
{
    reveal(banner_str);
    reveal(grows);
}

/// [`cls`] continues the state it is given, and defines its own labels
/// and no others.
pub proof fn lemma_cls(s: Asm)
    requires
        s.fresh(Label::Routine(Routine::Cls)),
        s.fresh(Label::Routine(Routine::ClsLoop)),
    ensures
        grows(s, cls(s)),
        forall|l: Label|
            #![trigger cls(s).labels.contains_key(l)]
            cls(s).labels.contains_key(l) <==> s.labels.contains_key(l)
                || l == Label::Routine(Routine::Cls)
                || l == Label::Routine(Routine::ClsLoop),
{
    reveal(cls);
    reveal(grows);
}

/// [`copy_font`] continues the state it is given, and defines its own labels
/// and no others.
pub proof fn lemma_copy_font(s: Asm)
    requires
        s.fresh(Label::Routine(Routine::CopyFont)),
        s.fresh(Label::Routine(Routine::CopyFontLoop)),
    ensures
        grows(s, copy_font(s)),
        forall|l: Label|
            #![trigger copy_font(s).labels.contains_key(l)]
            copy_font(s).labels.contains_key(l) <==> s.labels.contains_key(l)
                || l == Label::Routine(Routine::CopyFont)
                || l == Label::Routine(Routine::CopyFontLoop),
{
    reveal(copy_font);
    reveal(grows);
}

/// [`font_rom`] continues the state it is given, and defines its own labels
/// and no others.
pub proof fn lemma_font_rom(s: Asm)
    requires
        s.fresh(Label::Routine(Routine::FontRom)),
    ensures
        grows(s, font_rom(s)),
        forall|l: Label|
            #![trigger font_rom(s).labels.contains_key(l)]
            font_rom(s).labels.contains_key(l) <==> s.labels.contains_key(l)
                || l == Label::Routine(Routine::FontRom),
{
    reveal(font_rom);
    reveal(grows);
}

/// [`rng`] continues the state it is given, and defines its own labels
/// and no others.
pub proof fn lemma_rng(s: Asm)
    requires
        s.fresh(Label::Routine(Routine::Rng)),
    ensures
        grows(s, rng(s)),
        forall|l: Label|
            #![trigger rng(s).labels.contains_key(l)]
            rng(s).labels.contains_key(l) <==> s.labels.contains_key(l)
                || l == Label::Routine(Routine::Rng),
{
    reveal(rng);
    reveal(grows);
}

/// [`get_key`] continues the state it is given, and defines its own labels
/// and no others.
pub proof fn lemma_get_key(s: Asm)
    requires
        s.fresh(Label::Routine(Routine::GetKey)),
        s.fresh(Label::Routine(Routine::GetKeyAlpha)),
        s.fresh(Label::Routine(Routine::GetKeyUpper)),
        s.fresh(Label::Routine(Routine::GetKeyNone)),
    ensures
        grows(s, get_key(s)),
        forall|l: Label|
            #![trigger get_key(s).labels.contains_key(l)]
            get_key(s).labels.contains_key(l) <==> s.labels.contains_key(l)
                || l == Label::Routine(Routine::GetKey)
                || l == Label::Routine(Routine::GetKeyAlpha)
                || l == Label::Routine(Routine::GetKeyUpper)
                || l == Label::Routine(Routine::GetKeyNone),
{
    reveal(get_key);
    reveal(grows);
}

/// [`wait_key`] continues the state it is given, and defines its own labels
/// and no others.
pub proof fn lemma_wait_key(s: Asm)
    requires
        s.fresh(Label::Routine(Routine::WaitKey)),
    ensures
        grows(s, wait_key(s)),
        forall|l: Label|
            #![trigger wait_key(s).labels.contains_key(l)]
            wait_key(s).labels.contains_key(l) <==> s.labels.contains_key(l)
                || l == Label::Routine(Routine::WaitKey),
{
    reveal(wait_key);
    reveal(grows);
}

/// [`draw_sprite`] continues the state it is given, and defines its own labels
/// and no others.
pub proof fn lemma_draw_sprite(s: Asm)
    requires
        s.fresh(Label::Routine(Routine::DrawSprite)),
        s.fresh(Label::Routine(Routine::DrawRow)),
    ensures
        grows(s, draw_sprite(s)),
        forall|l: Label|
            #![trigger draw_sprite(s).labels.contains_key(l)]
            draw_sprite(s).labels.contains_key(l) <==> s.labels.contains_key(l)
                || l == Label::Routine(Routine::DrawSprite)
                || l == Label::Routine(Routine::DrawRow),
{
    reveal(draw_sprite);
    reveal(grows);
}

/// [`refresh_display`] continues the state it is given, and defines its own labels
/// and no others.
pub proof fn lemma_refresh_display(s: Asm)
    requires
        s.fresh(Label::Routine(Routine::RefreshDisplay)),
        s.fresh(Label::Routine(Routine::RefreshRow)),
        s.fresh(Label::Routine(Routine::RefreshByte)),
        s.fresh(Label::Routine(Routine::RefreshBit)),
        s.fresh(Label::Routine(Routine::RefreshSpace)),
        s.fresh(Label::Routine(Routine::RefreshOut)),
    ensures
        grows(s, refresh_display(s)),
        forall|l: Label|
            #![trigger refresh_display(s).labels.contains_key(l)]
            refresh_display(s).labels.contains_key(l) <==> s.labels.contains_key(l)
                || l == Label::Routine(Routine::RefreshDisplay)
                || l == Label::Routine(Routine::RefreshRow)
                || l == Label::Routine(Routine::RefreshByte)
                || l == Label::Routine(Routine::RefreshBit)
                || l == Label::Routine(Routine::RefreshSpace)
                || l == Label::Routine(Routine::RefreshOut),
{
    reveal(refresh_display);
    reveal(grows);
}

/// The runtime continues the state it is given, and defines its own labels
/// and no others.
pub proof fn lemma_runtime(s: Asm)
    requires
        runtime_fresh(s),
    ensures
        grows(s, runtime(s)),
        forall|l: Label|
            #![trigger runtime(s).labels.contains_key(l)]
            runtime(s).labels.contains_key(l) <==> s.labels.contains_key(l) || is_runtime_label(l),
{
    let t = s;
    lemma_grows_refl(s);
    lemma_acia_init(t);
    lemma_grows_trans(s, t, acia_init(t));
    let t = acia_init(t);
    lemma_print_char(t);
    lemma_grows_trans(s, t, print_char(t));
    let t = print_char(t);
    lemma_print_banner(t);
    lemma_grows_trans(s, t, print_banner(t));
    let t = print_banner(t);
    lemma_banner_str(t);
    lemma_grows_trans(s, t, banner_str(t));
    let t = banner_str(t);
    lemma_cls(t);
    lemma_grows_trans(s, t, cls(t));
    let t = cls(t);
    lemma_copy_font(t);
    lemma_grows_trans(s, t, copy_font(t));
    let t = copy_font(t);
    lemma_font_rom(t);
    lemma_grows_trans(s, t, font_rom(t));
    let t = font_rom(t);
    lemma_rng(t);
    lemma_grows_trans(s, t, rng(t));
    let t = rng(t);
    lemma_get_key(t);
    lemma_grows_trans(s, t, get_key(t));
    let t = get_key(t);
    lemma_wait_key(t);
    lemma_grows_trans(s, t, wait_key(t));
    let t = wait_key(t);
    lemma_draw_sprite(t);
    lemma_grows_trans(s, t, draw_sprite(t));
    let t = draw_sprite(t);
    lemma_refresh_display(t);
    lemma_grows_trans(s, t, refresh_display(t));
    let t = refresh_display(t);
}

impl Compiler {
    /// Emit [`init`].
    pub(crate) fn generate_init(&mut self) -> (r: Result<(), CompileError>)
        requires
            old(self).wf(),
            old(self)@.fresh(Label::Routine(Routine::Init)),
            old(self)@.fresh(Label::Routine(Routine::InitClear)),
        ensures
            final(self).wf(),
            r is Ok,
            final(self)@ == init(old(self)@),
    {
        proof {
            reveal(init);
        }
        self.label(Label::Routine(Routine::Init))?;
        // Initialize stack pointer (at top of RAM, grows downward)
        self.ld_sp_nn(0x0000);
        // Initialize ACIA
        self.call_label(Label::Routine(Routine::AciaInit));
        // Clear CHIP-8 registers
        self.ld_hl_nn(CHIP8_V0);
        self.ld_bc_nn(32);
        self.label(Label::Routine(Routine::InitClear))?;
        self.xor_a();
        self.ld_hl_a();
        self.inc_hl();
        self.dec_bc();
        self.ld_a_b();
        self.or_c();
        self.jr_nz(Label::Routine(Routine::InitClear));
        // Initialize RNG seed
        self.ld_hl_nn(CHIP8_RNG);
        self.ld_a_n(0xAC);
        self.ld_hl_a();
        self.inc_hl();
        self.ld_a_n(0xE1);
        self.ld_hl_a();
        // Clear display
        self.call_label(Label::Routine(Routine::Cls));
        // Copy font to RAM
        self.call_label(Label::Routine(Routine::CopyFont));
        // Print banner
        self.call_label(Label::Routine(Routine::PrintBanner));
        // Jump to main
        self.jp_label(Label::Routine(Routine::Main));
        Ok(())
    }

    /// Emit [`acia_init`].
    pub(crate) fn generate_acia_init(&mut self) -> (r: Result<(), CompileError>)
        requires
            old(self).wf(),
            old(self)@.fresh(Label::Routine(Routine::AciaInit)),
        ensures
            final(self).wf(),
            r is Ok,
            final(self)@ == acia_init(old(self)@),
    {
        proof {
            reveal(acia_init);
        }
        self.label(Label::Routine(Routine::AciaInit))?;
        self.ld_a_n(0x03);
        self.out_n_a(ACIA_CTRL);
        self.ld_a_n(0x15);
        self.out_n_a(ACIA_CTRL);
        self.ret();
        Ok(())
    }

    /// Emit [`print_char`].
    pub(crate) fn generate_print_char(&mut self) -> (r: Result<(), CompileError>)
        requires
            old(self).wf(),
            old(self)@.fresh(Label::Routine(Routine::PrintChar)),
            old(self)@.fresh(Label::Routine(Routine::PrintWait)),
        ensures
            final(self).wf(),
            r is Ok,
            final(self)@ == print_char(old(self)@),
    {
        proof {
            reveal(print_char);
        }
        self.label(Label::Routine(Routine::PrintChar))?;
        self.push_af();
        self.label(Label::Routine(Routine::PrintWait))?;
        self.in_a_n(ACIA_CTRL);
        self.and_n(0x02);
        self.jr_z(Label::Routine(Routine::PrintWait));
        self.pop_af();
        self.out_n_a(ACIA_DATA);
        self.ret();
        Ok(())
    }

    /// Emit [`print_banner`].
    pub(crate) fn generate_print_banner(&mut self) -> (r: Result<(), CompileError>)
        requires
            old(self).wf(),
            old(self)@.fresh(Label::Routine(Routine::PrintBanner)),
            old(self)@.fresh(Label::Routine(Routine::PrintStrLoop)),
        ensures
            final(self).wf(),
            r is Ok,
            final(self)@ == print_banner(old(self)@),
    {
        proof {
            reveal(print_banner);
        }
        self.label(Label::Routine(Routine::PrintBanner))?;
        self.ld_hl_label(Label::Routine(Routine::BannerStr));
        self.label(Label::Routine(Routine::PrintStrLoop))?;
        self.ld_a_hl();
        self.or_a();
        self.ret_z();
        self.call_label(Label::Routine(Routine::PrintChar));
        self.inc_hl();
        self.jr_label(Label::Routine(Routine::PrintStrLoop));
        Ok(())
    }

    /// Emit [`banner_str`].
    pub(crate) fn generate_banner_str(&mut self) -> (r: Result<(), CompileError>)
        requires
            old(self).wf(),
            old(self)@.fresh(Label::Routine(Routine::BannerStr)),
        ensures
            final(self).wf(),
            r is Ok,
            final(self)@ == banner_str(old(self)@),
    {
        proof {
            reveal(banner_str);
        }
        self.label(Label::Routine(Routine::BannerStr))?;
        self.emit(0x43);
        self.emit(0x48);
        self.emit(0x49);
        self.emit(0x50);
        self.emit(0x2D);
        self.emit(0x38);
        self.emit(0x20);
        self.emit(0x6F);
        self.emit(0x6E);
        self.emit(0x20);
        self.emit(0x5A);
        self.emit(0x38);
        self.emit(0x30);
        self.emit(0x0D);
        self.emit(0x0A);
        self.emit(0);
        Ok(())
    }

    /// Emit [`cls`].
    pub(crate) fn generate_cls(&mut self) -> (r: Result<(), CompileError>)
        requires
            old(self).wf(),
            old(self)@.fresh(Label::Routine(Routine::Cls)),
            old(self)@.fresh(Label::Routine(Routine::ClsLoop)),
        ensures
            final(self).wf(),
            r is Ok,
            final(self)@ == cls(old(self)@),
    {
        proof {
            reveal(cls);
        }
        self.label(Label::Routine(Routine::Cls))?;
        self.ld_hl_nn(DISPLAY_BUF);
        self.ld_bc_nn(256);
        self.label(Label::Routine(Routine::ClsLoop))?;
        self.xor_a();
        self.ld_hl_a();
        self.inc_hl();
        self.dec_bc();
        self.ld_a_b();
        self.or_c();
        self.jr_nz(Label::Routine(Routine::ClsLoop));
        // Refresh display to show cleared screen
        self.jp_label(Label::Routine(Routine::RefreshDisplay));
        Ok(())
    }

    /// Emit [`copy_font`].
    pub(crate) fn generate_copy_font(&mut self) -> (r: Result<(), CompileError>)
        requires
            old(self).wf(),
            old(self)@.fresh(Label::Routine(Routine::CopyFont)),
            old(self)@.fresh(Label::Routine(Routine::CopyFontLoop)),
        ensures
            final(self).wf(),
            r is Ok,
            final(self)@ == copy_font(old(self)@),
    {
        proof {
            reveal(copy_font);
        }
        self.label(Label::Routine(Routine::CopyFont))?;
        self.ld_hl_label(Label::Routine(Routine::FontRom));
        self.ld_de_nn(FONT_DATA);
        self.ld_bc_nn(80);
        self.label(Label::Routine(Routine::CopyFontLoop))?;
        self.ld_a_hl();
        self.ld_de_a();
        self.inc_hl();
        self.inc_de();
        self.dec_bc();
        self.ld_a_b();
        self.or_c();
        self.jr_nz(Label::Routine(Routine::CopyFontLoop));
        self.ret();
        Ok(())
    }

    /// Emit [`font_rom`].
    pub(crate) fn generate_font_rom(&mut self) -> (r: Result<(), CompileError>)
        requires
            old(self).wf(),
            old(self)@.fresh(Label::Routine(Routine::FontRom)),
        ensures
            final(self).wf(),
            r is Ok,
            final(self)@ == font_rom(old(self)@),
    {
        proof {
            reveal(font_rom);
        }
        self.label(Label::Routine(Routine::FontRom))?;
        // 0
        self.emit(0xF0);
        self.emit(0x90);
        self.emit(0x90);
        self.emit(0x90);
        self.emit(0xF0);
        // 1
        self.emit(0x20);
        self.emit(0x60);
        self.emit(0x20);
        self.emit(0x20);
        self.emit(0x70);
        // 2
        self.emit(0xF0);
        self.emit(0x10);
        self.emit(0xF0);
        self.emit(0x80);
        self.emit(0xF0);
        // 3
        self.emit(0xF0);
        self.emit(0x10);
        self.emit(0xF0);
        self.emit(0x10);
        self.emit(0xF0);
        // 4
        self.emit(0x90);
        self.emit(0x90);
        self.emit(0xF0);
        self.emit(0x10);
        self.emit(0x10);
        // 5
        self.emit(0xF0);
        self.emit(0x80);
        self.emit(0xF0);
        self.emit(0x10);
        self.emit(0xF0);
        // 6
        self.emit(0xF0);
        self.emit(0x80);
        self.emit(0xF0);
        self.emit(0x90);
        self.emit(0xF0);
        // 7
        self.emit(0xF0);
        self.emit(0x10);
        self.emit(0x20);
        self.emit(0x40);
        self.emit(0x40);
        // 8
        self.emit(0xF0);
        self.emit(0x90);
        self.emit(0xF0);
        self.emit(0x90);
        self.emit(0xF0);
        // 9
        self.emit(0xF0);
        self.emit(0x90);
        self.emit(0xF0);
        self.emit(0x10);
        self.emit(0xF0);
        // A
        self.emit(0xF0);
        self.emit(0x90);
        self.emit(0xF0);
        self.emit(0x90);
        self.emit(0x90);
        // B
        self.emit(0xE0);
        self.emit(0x90);
        self.emit(0xE0);
        self.emit(0x90);
        self.emit(0xE0);
        // C
        self.emit(0xF0);
        self.emit(0x80);
        self.emit(0x80);
        self.emit(0x80);
        self.emit(0xF0);
        // D
        self.emit(0xE0);
        self.emit(0x90);
        self.emit(0x90);
        self.emit(0x90);
        self.emit(0xE0);
        // E
        self.emit(0xF0);
        self.emit(0x80);
        self.emit(0xF0);
        self.emit(0x80);
        self.emit(0xF0);
        // F
        self.emit(0xF0);
        self.emit(0x80);
        self.emit(0xF0);
        self.emit(0x80);
        self.emit(0x80);
        Ok(())
    }

    /// Emit [`rng`].
    pub(crate) fn generate_rng(&mut self) -> (r: Result<(), CompileError>)
        requires
            old(self).wf(),
            old(self)@.fresh(Label::Routine(Routine::Rng)),
        ensures
            final(self).wf(),
            r is Ok,
            final(self)@ == rng(old(self)@),
    {
        proof {
            reveal(rng);
        }
        self.label(Label::Routine(Routine::Rng))?;
        self.ld_hl_nn(CHIP8_RNG);
        self.ld_a_hl();
        self.inc_hl();
        self.ld_h_hl();
        self.ld_l_a();
        // x ^= x << 7
        self.ld_a_h();
        self.rra();
        self.ld_a_l();
        self.rra();
        self.xor_h();
        self.ld_h_a();
        // x ^= x >> 9
        self.ld_a_l();
        self.rra();
        self.ld_a_h();
        self.rra();
        self.xor_l();
        self.ld_l_a();
        // x ^= x << 8
        self.xor_h();
        self.ld_h_a();
        // Store the state; its low byte is the result.
        self.ex_de_hl();
        self.ld_hl_nn(CHIP8_RNG);
        self.ld_a_e();
        self.ld_hl_a();
        self.inc_hl();
        self.ld_a_d();
        self.ld_hl_a();
        self.ld_a_e();
        self.ret();
        Ok(())
    }

    /// Emit [`get_key`].
    pub(crate) fn generate_get_key(&mut self) -> (r: Result<(), CompileError>)
        requires
            old(self).wf(),
            old(self)@.fresh(Label::Routine(Routine::GetKey)),
            old(self)@.fresh(Label::Routine(Routine::GetKeyAlpha)),
            old(self)@.fresh(Label::Routine(Routine::GetKeyUpper)),
            old(self)@.fresh(Label::Routine(Routine::GetKeyNone)),
        ensures
            final(self).wf(),
            r is Ok,
            final(self)@ == get_key(old(self)@),
    {
        proof {
            reveal(get_key);
        }
        self.label(Label::Routine(Routine::GetKey))?;
        self.in_a_n(ACIA_CTRL);
        self.and_n(0x01);
        self.ret_z();
        self.in_a_n(ACIA_DATA);
        // Map ASCII to CHIP-8 keys (0-9, A-F)
        self.cp_n(0x30);
        self.jr_c(Label::Routine(Routine::GetKeyAlpha));
        self.cp_n(0x3A);
        self.jr_nc(Label::Routine(Routine::GetKeyAlpha));
        self.sub_n(0x30);
        self.ret();
        self.label(Label::Routine(Routine::GetKeyAlpha))?;
        self.cp_n(0x61);
        self.jr_c(Label::Routine(Routine::GetKeyUpper));
        self.cp_n(0x67);
        self.jr_nc(Label::Routine(Routine::GetKeyNone));
        self.sub_n(0x57);
        self.ret();
        self.label(Label::Routine(Routine::GetKeyUpper))?;
        self.cp_n(0x41);
        self.jr_c(Label::Routine(Routine::GetKeyNone));
        self.cp_n(0x47);
        self.jr_nc(Label::Routine(Routine::GetKeyNone));
        self.sub_n(0x37);
        self.ret();
        self.label(Label::Routine(Routine::GetKeyNone))?;
        self.ld_a_n(0xFF);
        self.ret();
        Ok(())
    }

    /// Emit [`wait_key`].
    pub(crate) fn generate_wait_key(&mut self) -> (r: Result<(), CompileError>)
        requires
            old(self).wf(),
            old(self)@.fresh(Label::Routine(Routine::WaitKey)),
        ensures
            final(self).wf(),
            r is Ok,
            final(self)@ == wait_key(old(self)@),
    {
        proof {
            reveal(wait_key);
        }
        self.label(Label::Routine(Routine::WaitKey))?;
        self.call_label(Label::Routine(Routine::GetKey));
        self.cp_n(0xFF);
        self.jr_z(Label::Routine(Routine::WaitKey));
        self.ret();
        Ok(())
    }

    /// Emit [`draw_sprite`].
    pub(crate) fn generate_draw_sprite(&mut self) -> (r: Result<(), CompileError>)
        requires
            old(self).wf(),
            old(self)@.fresh(Label::Routine(Routine::DrawSprite)),
            old(self)@.fresh(Label::Routine(Routine::DrawRow)),
        ensures
            final(self).wf(),
            r is Ok,
            final(self)@ == draw_sprite(old(self)@),
    {
        proof {
            reveal(draw_sprite);
        }
        self.label(Label::Routine(Routine::DrawSprite))?;
        self.xor_a();
        self.ld_c_a();
        self.label(Label::Routine(Routine::DrawRow))?;
        // Get sprite byte
        self.ld_a_hl();
        self.push_hl();
        self.push_de();
        // XOR with screen
        self.ex_de_hl();
        self.ld_e_a();
        self.ld_a_hl();
        self.push_af();
        self.ld_a_e();
        self.xor_hl();
        self.ld_hl_a();
        self.pop_af();
        self.and_a_e();
        self.or_c();
        self.ld_c_a();
        // Restore and advance pointers
        self.pop_de();
        self.pop_hl();
        self.inc_hl();
        // Screen += 8 (next row)
        self.push_hl();
        self.ld_hl_nn(8);
        self.add_hl_de();
        self.ex_de_hl();
        self.pop_hl();
        self.dec_b();
        self.jr_nz(Label::Routine(Routine::DrawRow));
        self.ld_a_c();
        self.or_a();
        self.ret_z();
        self.ld_a_n(1);
        self.ret();
        Ok(())
    }

    /// Emit [`refresh_display`].
    pub(crate) fn generate_refresh_display(&mut self) -> (r: Result<(), CompileError>)
        requires
            old(self).wf(),
            old(self)@.fresh(Label::Routine(Routine::RefreshDisplay)),
            old(self)@.fresh(Label::Routine(Routine::RefreshRow)),
            old(self)@.fresh(Label::Routine(Routine::RefreshByte)),
            old(self)@.fresh(Label::Routine(Routine::RefreshBit)),
            old(self)@.fresh(Label::Routine(Routine::RefreshSpace)),
            old(self)@.fresh(Label::Routine(Routine::RefreshOut)),
        ensures
            final(self).wf(),
            r is Ok,
            final(self)@ == refresh_display(old(self)@),
    {
        proof {
            reveal(refresh_display);
        }
        self.label(Label::Routine(Routine::RefreshDisplay))?;
        // Move cursor to row 2 (below banner) - ESC[2;1H
        self.ld_a_n(0x1B);
        self.call_label(Label::Routine(Routine::PrintChar));
        self.ld_a_n(0x5B);
        self.call_label(Label::Routine(Routine::PrintChar));
        self.ld_a_n(0x32);
        self.call_label(Label::Routine(Routine::PrintChar));
        self.ld_a_n(0x3B);
        self.call_label(Label::Routine(Routine::PrintChar));
        self.ld_a_n(0x31);
        self.call_label(Label::Routine(Routine::PrintChar));
        self.ld_a_n(0x48);
        self.call_label(Label::Routine(Routine::PrintChar));
        self.ld_hl_nn(DISPLAY_BUF);
        self.ld_d_n(32);
        self.label(Label::Routine(Routine::RefreshRow))?;
        self.ld_e_n(8);
        self.label(Label::Routine(Routine::RefreshByte))?;
        self.ld_a_hl();
        self.ld_b_n(8);
        self.label(Label::Routine(Routine::RefreshBit))?;
        self.rlc_a();
        self.push_af();
        self.jr_nc(Label::Routine(Routine::RefreshSpace));
        self.ld_a_n(0x23);
        self.jr_label(Label::Routine(Routine::RefreshOut));
        self.label(Label::Routine(Routine::RefreshSpace))?;
        self.ld_a_n(0x20);
        self.label(Label::Routine(Routine::RefreshOut))?;
        self.call_label(Label::Routine(Routine::PrintChar));
        self.pop_af();
        self.dec_b();
        self.jr_nz(Label::Routine(Routine::RefreshBit));
        self.inc_hl();
        self.dec_e();
        self.jr_nz(Label::Routine(Routine::RefreshByte));
        // Newline
        self.ld_a_n(0x0D);
        self.call_label(Label::Routine(Routine::PrintChar));
        self.ld_a_n(0x0A);
        self.call_label(Label::Routine(Routine::PrintChar));
        self.dec_d();
        self.jr_nz(Label::Routine(Routine::RefreshRow));
        self.ret();
        Ok(())
    }

    /// Emit the runtime: every support routine, once, in a fixed order.
    pub(crate) fn generate_runtime(&mut self) -> (r: Result<(), CompileError>)
        requires
            old(self).wf(),
            runtime_fresh(old(self)@),
        ensures
            final(self).wf(),
            r is Ok,
            final(self)@ == runtime(old(self)@),
    {
        let ghost s = self@;
        self.generate_acia_init()?;
        proof {
            lemma_acia_init(s);
        }
        let ghost s = self@;
        self.generate_print_char()?;
        proof {
            lemma_print_char(s);
        }
        let ghost s = self@;
        self.generate_print_banner()?;
        proof {
            lemma_print_banner(s);
        }
        let ghost s = self@;
        self.generate_banner_str()?;
        proof {
            lemma_banner_str(s);
        }
        let ghost s = self@;
        self.generate_cls()?;
        proof {
            lemma_cls(s);
        }
        let ghost s = self@;
        self.generate_copy_font()?;
        proof {
            lemma_copy_font(s);
        }
        let ghost s = self@;
        self.generate_font_rom()?;
        proof {
            lemma_font_rom(s);
        }
        let ghost s = self@;
        self.generate_rng()?;
        proof {
            lemma_rng(s);
        }
        let ghost s = self@;
        self.generate_get_key()?;
        proof {
            lemma_get_key(s);
        }
        let ghost s = self@;
        self.generate_wait_key()?;
        proof {
            lemma_wait_key(s);
        }
        let ghost s = self@;
        self.generate_draw_sprite()?;
        proof {
            lemma_draw_sprite(s);
        }
        let ghost s = self@;
        self.generate_refresh_display()?;
        proof {
            lemma_refresh_display(s);
        }
        Ok(())
    }
}

} // verus!
