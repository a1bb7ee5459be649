//! Labels: the symbolic names of positions in the emitted image.

use crate::chip8::{append_hex3, hex3};
use vstd::prelude::*;
use vstd::string::*;

verus! {

/// An entry point or inner position of the fixed runtime and program frame.
#[derive(Debug, Clone, Copy, PartialEq, Eq, Structural)]
pub enum Routine {
    /// Start-up code: stack, serial port, registers, screen, font, banner.
    Init,
    /// Loop of `init` that zeroes the register block.
    InitClear,
    /// Serial port set-up.
    AciaInit,
    /// Send the byte in `A` to the serial port.
    PrintChar,
    /// Loop of `print_char` that waits for the transmitter.
    PrintWait,
    /// Print the banner string.
    PrintBanner,
    /// Loop of `print_banner` over the string's bytes.
    PrintStrLoop,
    /// The NUL-terminated banner text.
    BannerStr,
    /// Clear the display bitmap and redraw.
    Cls,
    /// Loop of `cls` over the bitmap.
    ClsLoop,
    /// Copy the font table to RAM.
    CopyFont,
    /// Loop of `copy_font` over the table.
    CopyFontLoop,
    /// The font table: 16 glyphs of 5 bytes.
    FontRom,
    /// Pseudorandom byte generator.
    Rng,
    /// Poll the serial port for a hex key.
    GetKey,
    /// Part of `get_key` for `a` to `f`.
    GetKeyAlpha,
    /// Part of `get_key` for `A` to `F`.
    GetKeyUpper,
    /// Part of `get_key` that answers "no key".
    GetKeyNone,
    /// Block until a hex key arrives.
    WaitKey,
    /// XOR a sprite into the display bitmap.
    DrawSprite,
    /// Loop of `draw_sprite` over the sprite's rows.
    DrawRow,
    /// Print the display bitmap to the terminal.
    RefreshDisplay,
    /// Loop of `refresh_display` over rows.
    RefreshRow,
    /// Loop of `refresh_display` over the bytes of a row.
    RefreshByte,
    /// Loop of `refresh_display` over the bits of a byte.
    RefreshBit,
    /// Part of `refresh_display` for a dark pixel.
    RefreshSpace,
    /// Part of `refresh_display` that prints the pixel.
    RefreshOut,
    /// Entry of the translated program.
    Main,
    /// Final halt loop.
    Halt,
    /// The embedded copy of the CHIP-8 ROM.
    Chip8RomData,
}

impl Routine {
    /// Position of the variant in the declaration, from 0.
    pub open spec fn spec_index(self) -> u64 {
        match self {
            Routine::Init => 0,
            Routine::InitClear => 1,
            Routine::AciaInit => 2,
            Routine::PrintChar => 3,
            Routine::PrintWait => 4,
            Routine::PrintBanner => 5,
            Routine::PrintStrLoop => 6,
            Routine::BannerStr => 7,
            Routine::Cls => 8,
            Routine::ClsLoop => 9,
            Routine::CopyFont => 10,
            Routine::CopyFontLoop => 11,
            Routine::FontRom => 12,
            Routine::Rng => 13,
            Routine::GetKey => 14,
            Routine::GetKeyAlpha => 15,
            Routine::GetKeyUpper => 16,
            Routine::GetKeyNone => 17,
            Routine::WaitKey => 18,
            Routine::DrawSprite => 19,
            Routine::DrawRow => 20,
            Routine::RefreshDisplay => 21,
            Routine::RefreshRow => 22,
            Routine::RefreshByte => 23,
            Routine::RefreshBit => 24,
            Routine::RefreshSpace => 25,
            Routine::RefreshOut => 26,
            Routine::Main => 27,
            Routine::Halt => 28,
            Routine::Chip8RomData => 29,
        }
    }

    /// Position of the variant in the declaration, from 0.
    pub fn index(&self) -> (r: u64)
        ensures
            r == self.spec_index(),
            r < 30,
    {
        match self {
            Routine::Init => 0,
            Routine::InitClear => 1,
            Routine::AciaInit => 2,
            Routine::PrintChar => 3,
            Routine::PrintWait => 4,
            Routine::PrintBanner => 5,
            Routine::PrintStrLoop => 6,
            Routine::BannerStr => 7,
            Routine::Cls => 8,
            Routine::ClsLoop => 9,
            Routine::CopyFont => 10,
            Routine::CopyFontLoop => 11,
            Routine::FontRom => 12,
            Routine::Rng => 13,
            Routine::GetKey => 14,
            Routine::GetKeyAlpha => 15,
            Routine::GetKeyUpper => 16,
            Routine::GetKeyNone => 17,
            Routine::WaitKey => 18,
            Routine::DrawSprite => 19,
            Routine::DrawRow => 20,
            Routine::RefreshDisplay => 21,
            Routine::RefreshRow => 22,
            Routine::RefreshByte => 23,
            Routine::RefreshBit => 24,
            Routine::RefreshSpace => 25,
            Routine::RefreshOut => 26,
            Routine::Main => 27,
            Routine::Halt => 28,
            Routine::Chip8RomData => 29,
        }
    }

    /// The name of the variant as it is written in listings.
    pub open spec fn spec_text(self) -> Seq<char> {
        match self {
            Routine::Init => "init"@,
            Routine::InitClear => "init_clear"@,
            Routine::AciaInit => "acia_init"@,
            Routine::PrintChar => "print_char"@,
            Routine::PrintWait => "print_wait"@,
            Routine::PrintBanner => "print_banner"@,
            Routine::PrintStrLoop => "print_str_loop"@,
            Routine::BannerStr => "banner_str"@,
            Routine::Cls => "cls"@,
            Routine::ClsLoop => "cls_loop"@,
            Routine::CopyFont => "copy_font"@,
            Routine::CopyFontLoop => "copy_font_loop"@,
            Routine::FontRom => "font_rom"@,
            Routine::Rng => "rng"@,
            Routine::GetKey => "get_key"@,
            Routine::GetKeyAlpha => "get_key_alpha"@,
            Routine::GetKeyUpper => "get_key_upper"@,
            Routine::GetKeyNone => "get_key_none"@,
            Routine::WaitKey => "wait_key"@,
            Routine::DrawSprite => "draw_sprite"@,
            Routine::DrawRow => "draw_row"@,
            Routine::RefreshDisplay => "refresh_display"@,
            Routine::RefreshRow => "refresh_row"@,
            Routine::RefreshByte => "refresh_byte"@,
            Routine::RefreshBit => "refresh_bit"@,
            Routine::RefreshSpace => "refresh_space"@,
            Routine::RefreshOut => "refresh_out"@,
            Routine::Main => "main"@,
            Routine::Halt => "halt"@,
            Routine::Chip8RomData => "chip8_rom_data"@,
        }
    }

    /// The name of the variant as it is written in listings.
    pub fn text(&self) -> (r: &'static str)
        ensures
            r@ == self.spec_text(),
    {
        match self {
            Routine::Init => "init",
            Routine::InitClear => "init_clear",
            Routine::AciaInit => "acia_init",
            Routine::PrintChar => "print_char",
            Routine::PrintWait => "print_wait",
            Routine::PrintBanner => "print_banner",
            Routine::PrintStrLoop => "print_str_loop",
            Routine::BannerStr => "banner_str",
            Routine::Cls => "cls",
            Routine::ClsLoop => "cls_loop",
            Routine::CopyFont => "copy_font",
            Routine::CopyFontLoop => "copy_font_loop",
            Routine::FontRom => "font_rom",
            Routine::Rng => "rng",
            Routine::GetKey => "get_key",
            Routine::GetKeyAlpha => "get_key_alpha",
            Routine::GetKeyUpper => "get_key_upper",
            Routine::GetKeyNone => "get_key_none",
            Routine::WaitKey => "wait_key",
            Routine::DrawSprite => "draw_sprite",
            Routine::DrawRow => "draw_row",
            Routine::RefreshDisplay => "refresh_display",
            Routine::RefreshRow => "refresh_row",
            Routine::RefreshByte => "refresh_byte",
            Routine::RefreshBit => "refresh_bit",
            Routine::RefreshSpace => "refresh_space",
            Routine::RefreshOut => "refresh_out",
            Routine::Main => "main",
            Routine::Halt => "halt",
            Routine::Chip8RomData => "chip8_rom_data",
        }
    }
}

/// A position inside the translation of one instruction. The same kind may be
/// needed by many instructions, so a label pairs it with the instruction's
/// address.
#[derive(Debug, Clone, Copy, PartialEq, Eq, Structural)]
pub enum Local {
    /// Join point after the borrow test of `SUB` and `SUBN`.
    NoBorrow,
    /// Branch of `DRW` for a sprite outside the font.
    DrawNotFont,
    /// Join point of `DRW` once the sprite address is known.
    DrawHaveSprite,
    /// Loop of `LD B` counting hundreds.
    BcdHundreds,
    /// Exit of the hundreds loop of `LD B`.
    BcdTens,
    /// Loop of `LD B` counting tens.
    BcdTensLoop,
    /// Exit of the tens loop of `LD B`.
    BcdOnes,
    /// Loop of `LD [I], Vx` over the registers.
    StoreRegs,
    /// Loop of `LD Vx, [I]` over the registers.
    LoadRegs,
}

impl Local {
    /// Position of the variant in the declaration, from 0.
    pub open spec fn spec_index(self) -> u64 {
        match self {
            Local::NoBorrow => 0,
            Local::DrawNotFont => 1,
            Local::DrawHaveSprite => 2,
            Local::BcdHundreds => 3,
            Local::BcdTens => 4,
            Local::BcdTensLoop => 5,
            Local::BcdOnes => 6,
            Local::StoreRegs => 7,
            Local::LoadRegs => 8,
        }
    }

    /// Position of the variant in the declaration, from 0.
    pub fn index(&self) -> (r: u64)
        ensures
            r == self.spec_index(),
            r < 9,
    {
        match self {
            Local::NoBorrow => 0,
            Local::DrawNotFont => 1,
            Local::DrawHaveSprite => 2,
            Local::BcdHundreds => 3,
            Local::BcdTens => 4,
            Local::BcdTensLoop => 5,
            Local::BcdOnes => 6,
            Local::StoreRegs => 7,
            Local::LoadRegs => 8,
        }
    }

    /// The name of the variant as it is written in listings.
    pub open spec fn spec_text(self) -> Seq<char> {
        match self {
            Local::NoBorrow => "no_borrow_"@,
            Local::DrawNotFont => "draw_not_font_"@,
            Local::DrawHaveSprite => "draw_have_sprite_"@,
            Local::BcdHundreds => "bcd_hundreds_"@,
            Local::BcdTens => "bcd_tens_"@,
            Local::BcdTensLoop => "bcd_tens_loop_"@,
            Local::BcdOnes => "bcd_ones_"@,
            Local::StoreRegs => "store_regs_"@,
            Local::LoadRegs => "load_regs_"@,
        }
    }

    /// The name of the variant as it is written in listings.
    pub fn text(&self) -> (r: &'static str)
        ensures
            r@ == self.spec_text(),
    {
        match self {
            Local::NoBorrow => "no_borrow_",
            Local::DrawNotFont => "draw_not_font_",
            Local::DrawHaveSprite => "draw_have_sprite_",
            Local::BcdHundreds => "bcd_hundreds_",
            Local::BcdTens => "bcd_tens_",
            Local::BcdTensLoop => "bcd_tens_loop_",
            Local::BcdOnes => "bcd_ones_",
            Local::StoreRegs => "store_regs_",
            Local::LoadRegs => "load_regs_",
        }
    }
}

/// A symbolic name for an offset into the image.
#[derive(Debug, Clone, Copy, PartialEq, Eq, Structural)]
pub enum Label {
    /// A position of the runtime or program frame, such as `cls` or `halt`.
    Routine(Routine),
    /// `c8_XXX`: the start of the translation of the instruction at CHIP-8
    /// address `XXX`.
    Chip8(u16),
    /// A position inside the translation of the instruction at the given
    /// address.
    Local(Local, u16),
}

impl Label {
    /// A number that identifies the label: no two labels share one.
    pub open spec fn spec_key(self) -> u64 {
        match self {
            Label::Routine(r) => r.spec_index(),
            Label::Chip8(a) => (0x1_0000 + a) as u64,
            Label::Local(k, a) => ((k.spec_index() + 2) * 0x1_0000 + a) as u64,
        }
    }

    /// A number that identifies the label: no two labels share one.
    pub fn key(&self) -> (r: u64)
        ensures
            r == self.spec_key(),
    {
        match self {
            Label::Routine(r) => r.index(),
            Label::Chip8(a) => 0x1_0000 + *a as u64,
            Label::Local(k, a) => (k.index() + 2) * 0x1_0000 + *a as u64,
        }
    }

    /// The label's name: a routine's own name, `c8_` and the address in hex,
    /// or the local kind's name followed by the address in hex.
    pub open spec fn spec_name(self) -> Seq<char> {
        match self {
            Label::Routine(r) => r.spec_text(),
            Label::Chip8(a) => "c8_"@ + hex3(a),
            Label::Local(k, a) => k.spec_text() + hex3(a),
        }
    }

    /// The label's name, as it is written in listings and messages.
    pub fn name(&self) -> (r: String)
        ensures
            r@ == self.spec_name(),
    {
        match self {
            Label::Routine(r) => String::from_str(r.text()),
            Label::Chip8(a) => {
                let mut s = String::from_str("c8_");
                append_hex3(&mut s, *a);
                s
            },
            Label::Local(k, a) => {
                let mut s = String::from_str(k.text());
                append_hex3(&mut s, *a);
                s
            },
        }
    }
}

/// Distinct labels have distinct keys.
pub proof fn lemma_key_injective(a: Label, b: Label)
    requires
        a.spec_key() == b.spec_key(),
    ensures
        a == b,
{
}

} // verus!
