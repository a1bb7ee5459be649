//! The opcode templates: for each CHIP-8 instruction, the Z80 sequence that
//! does its work on the register file in RAM.

use crate::chip8::Instruction;
use crate::codegen::Compiler;
use crate::error::CompileError;
use crate::image::{grows, hi, lemma_grows_refl, lo, Asm};
use crate::label::{Label, Local, Routine};
use crate::layout::{
    vreg, CHIP8_DT, CHIP8_I, CHIP8_RAM, CHIP8_SP, CHIP8_ST, CHIP8_STACK, CHIP8_V0, DISPLAY_BUF,
    FONT_DATA,
};
use vstd::prelude::*;

verus! {

/// The address that a `CALL` at `addr` returns to: the next instruction's,
/// in 16 bits.
pub open spec fn return_addr(addr: u16) -> u16 {
    ((addr + 2) % 0x1_0000) as u16
}

/// The label that a skip at `addr` branches to: that of the instruction
/// after the next, if one was scanned there.
pub open spec fn skip_target(s: Asm, addr: u16) -> Option<Label> {
    if addr + 4 <= 0xFFFF && s.scanned.contains((addr + 4) as u16) {
        Some(Label::Chip8((addr + 4) as u16))
    } else {
        None
    }
}

/// The conditional branch that ends a skip instruction at `addr`: the
/// absolute jump with opcode byte `op` to the skip target. Where the skip
/// target holds no instruction nothing is emitted, and execution falls
/// through.
pub open spec fn skip(s: Asm, op: u8, addr: u16) -> Asm {
    match skip_target(s, addr) {
        Some(l) => s.byte(op).refer(l),
        None => s,
    }
}

/// `00E0` CLS: clear the screen.
#[verifier::opaque]
pub open spec fn op_cls(s: Asm) -> Asm {
    s
        /* CALL cls               */ .byte(0xCD).refer(Label::Routine(Routine::Cls))
}

/// `00EE` RET: decrement the CHIP-8 stack pointer, load the two-byte
/// address at `CHIP8_STACK + 2 * SP`, push it on the Z80 stack and `RET`
/// to it.
#[verifier::opaque]
pub open spec fn op_ret(s: Asm) -> Asm {
    s
        /* LD HL, CHIP8_SP        */ .byte(0x21).word(CHIP8_SP)
        /* LD A, (HL)             */ .byte(0x7E)
        /* DEC A                  */ .byte(0x3D)
        /* LD (HL), A             */ .byte(0x77)
        /* LD L, A                */ .byte(0x6F)
        /* LD H, 0                */ .byte(0x26).byte(0)
        /* ADD HL, HL             */ .byte(0x29)
        /* LD DE, CHIP8_STACK     */ .byte(0x11).word(CHIP8_STACK)
        /* ADD HL, DE             */ .byte(0x19)
        /* LD E, (HL)             */ .byte(0x5E)
        /* INC HL                 */ .byte(0x23)
        /* LD D, (HL)             */ .byte(0x56)
        /* PUSH DE                */ .byte(0xD5)
        /* RET                    */ .byte(0xC9)
}

/// `1NNN` JP: jump to the translation of the instruction at `NNN`.
#[verifier::opaque]
pub open spec fn op_jp(s: Asm, nnn: u16) -> Asm {
    s
        /* JP c8_NNN              */ .byte(0xC3).refer(Label::Chip8(nnn))
}

/// `2NNN` CALL: store the return address `addr + 2` at
/// `CHIP8_STACK + 2 * SP`, low byte first, increment the CHIP-8 stack
/// pointer and jump to the translation of the instruction at `NNN`. The
/// stack depth is not checked.
#[verifier::opaque]
pub open spec fn op_call(s: Asm, addr: u16, nnn: u16) -> Asm {
    s
        /* LD HL, CHIP8_SP        */ .byte(0x21).word(CHIP8_SP)
        /* LD A, (HL)             */ .byte(0x7E)
        /* LD L, A                */ .byte(0x6F)
        /* LD H, 0                */ .byte(0x26).byte(0)
        /* ADD HL, HL             */ .byte(0x29)
        /* LD DE, CHIP8_STACK     */ .byte(0x11).word(CHIP8_STACK)
        /* ADD HL, DE             */ .byte(0x19)
        /* LD A, lo(addr + 2)     */ .byte(0x3E).byte(lo(return_addr(addr)))
        /* LD (HL), A             */ .byte(0x77)
        /* INC HL                 */ .byte(0x23)
        /* LD A, hi(addr + 2)     */ .byte(0x3E).byte(hi(return_addr(addr)))
        /* LD (HL), A             */ .byte(0x77)
        /* LD HL, CHIP8_SP        */ .byte(0x21).word(CHIP8_SP)
        /* INC (HL)               */ .byte(0x34)
        /* JP c8_NNN              */ .byte(0xC3).refer(Label::Chip8(nnn))
}

/// `3XNN` SE: skip the next instruction if `Vx == NN`.
#[verifier::opaque]
pub open spec fn op_se_imm(s: Asm, addr: u16, x: u8, nn: u8) -> Asm {
    skip(
        s
            /* LD A, (Vx)             */ .byte(0x3A).word(vreg(x))
            /* CP nn                  */ .byte(0xFE).byte(nn),
        /* JP Z, c8_(addr + 4) */ 0xCA,
        addr,
    )
}

/// `4XNN` SNE: skip the next instruction if `Vx != NN`.
#[verifier::opaque]
pub open spec fn op_sne_imm(s: Asm, addr: u16, x: u8, nn: u8) -> Asm {
    skip(
        s
            /* LD A, (Vx)             */ .byte(0x3A).word(vreg(x))
            /* CP nn                  */ .byte(0xFE).byte(nn),
        /* JP NZ, c8_(addr + 4) */ 0xC2,
        addr,
    )
}

/// `5XY0` SE: skip the next instruction if `Vx == Vy`.
#[verifier::opaque]
pub open spec fn op_se_reg(s: Asm, addr: u16, x: u8, y: u8) -> Asm {
    skip(
        s
            /* LD A, (Vx)             */ .byte(0x3A).word(vreg(x))
            /* LD HL, Vy              */ .byte(0x21).word(vreg(y))
            /* CP (HL)                */ .byte(0xBE),
        /* JP Z, c8_(addr + 4) */ 0xCA,
        addr,
    )
}

/// `6XNN` LD: `Vx = NN`.
#[verifier::opaque]
pub open spec fn op_ld_imm(s: Asm, x: u8, nn: u8) -> Asm {
    s
        /* LD A, nn               */ .byte(0x3E).byte(nn)
        /* LD (Vx), A             */ .byte(0x32).word(vreg(x))
}

/// `7XNN` ADD: `Vx += NN`, wrapping; `VF` is untouched.
#[verifier::opaque]
pub open spec fn op_add_imm(s: Asm, x: u8, nn: u8) -> Asm {
    s
        /* LD A, (Vx)             */ .byte(0x3A).word(vreg(x))
        /* ADD A, nn              */ .byte(0xC6).byte(nn)
        /* LD (Vx), A             */ .byte(0x32).word(vreg(x))
}

/// `8XY0` LD: `Vx = Vy`.
#[verifier::opaque]
pub open spec fn op_ld_reg(s: Asm, x: u8, y: u8) -> Asm {
    s
        /* LD A, (Vy)             */ .byte(0x3A).word(vreg(y))
        /* LD (Vx), A             */ .byte(0x32).word(vreg(x))
}

/// `8XY1` OR: `Vx |= Vy`.
#[verifier::opaque]
pub open spec fn op_or_reg(s: Asm, x: u8, y: u8) -> Asm {
    s
        /* LD A, (Vx)             */ .byte(0x3A).word(vreg(x))
        /* LD HL, Vy              */ .byte(0x21).word(vreg(y))
        /* OR (HL)                */ .byte(0xB6)
        /* LD (Vx), A             */ .byte(0x32).word(vreg(x))
}

/// `8XY2` AND: `Vx &= Vy`.
#[verifier::opaque]
pub open spec fn op_and_reg(s: Asm, x: u8, y: u8) -> Asm {
    s
        /* LD A, (Vx)             */ .byte(0x3A).word(vreg(x))
        /* LD HL, Vy              */ .byte(0x21).word(vreg(y))
        /* AND (HL)               */ .byte(0xA6)
        /* LD (Vx), A             */ .byte(0x32).word(vreg(x))
}

/// `8XY3` XOR: `Vx ^= Vy`.
#[verifier::opaque]
pub open spec fn op_xor_reg(s: Asm, x: u8, y: u8) -> Asm {
    s
        /* LD A, (Vx)             */ .byte(0x3A).word(vreg(x))
        /* LD HL, Vy              */ .byte(0x21).word(vreg(y))
        /* XOR (HL)               */ .byte(0xAE)
        /* LD (Vx), A             */ .byte(0x32).word(vreg(x))
}

/// `8XY4` ADD: `Vx += Vy`, then `VF` = carry.
#[verifier::opaque]
pub open spec fn op_add_reg(s: Asm, x: u8, y: u8) -> Asm {
    s
        /* LD A, (Vx)             */ .byte(0x3A).word(vreg(x))
        /* LD HL, Vy              */ .byte(0x21).word(vreg(y))
        /* ADD A, (HL)            */ .byte(0x86)
        /* LD (Vx), A             */ .byte(0x32).word(vreg(x))
        /* LD A, 0                */ .byte(0x3E).byte(0)
        /* ADC A, 0x00            */ .byte(0xCE).byte(0x00)
        /* LD (VF), A             */ .byte(0x32).word(vreg(0xF))
}

/// `8XY5` SUB: `Vx -= Vy`, then `VF` = 1 if there was no borrow, else 0.
#[verifier::opaque]
pub open spec fn op_sub_reg(s: Asm, addr: u16, x: u8, y: u8) -> Asm {
    s
        /* LD A, (Vx)             */ .byte(0x3A).word(vreg(x))
        /* LD HL, Vy              */ .byte(0x21).word(vreg(y))
        /* SUB (HL)               */ .byte(0x96)
        /* LD (Vx), A             */ .byte(0x32).word(vreg(x))
        /* LD A, 1                */ .byte(0x3E).byte(1)
        /* JP NC, no_borrow       */ .byte(0xD2).refer(Label::Local(Local::NoBorrow, addr))
        /* XOR A                  */ .byte(0xAF)
        /* no_borrow:             */ .def(Label::Local(Local::NoBorrow, addr))
        /* LD (VF), A             */ .byte(0x32).word(vreg(0xF))
}

/// `8XY6` SHR: `Vx >>= 1` in place, then `VF` = the bit shifted out.
#[verifier::opaque]
pub open spec fn op_shr(s: Asm, x: u8) -> Asm {
    s
        /* LD A, (Vx)             */ .byte(0x3A).word(vreg(x))
        /* SRL A                  */ .byte(0xCB).byte(0x3F)
        /* LD (Vx), A             */ .byte(0x32).word(vreg(x))
        /* LD A, 0                */ .byte(0x3E).byte(0)
        /* ADC A, 0x00            */ .byte(0xCE).byte(0x00)
        /* LD (VF), A             */ .byte(0x32).word(vreg(0xF))
}

/// `8XY7` SUBN: `Vx = Vy - Vx`, then `VF` = 1 if there was no borrow,
/// else 0.
#[verifier::opaque]
pub open spec fn op_subn_reg(s: Asm, addr: u16, x: u8, y: u8) -> Asm {
    s
        /* LD A, (Vy)             */ .byte(0x3A).word(vreg(y))
        /* LD HL, Vx              */ .byte(0x21).word(vreg(x))
        /* SUB (HL)               */ .byte(0x96)
        /* LD (Vx), A             */ .byte(0x32).word(vreg(x))
        /* LD A, 1                */ .byte(0x3E).byte(1)
        /* JP NC, no_borrow       */ .byte(0xD2).refer(Label::Local(Local::NoBorrow, addr))
        /* XOR A                  */ .byte(0xAF)
        /* no_borrow:             */ .def(Label::Local(Local::NoBorrow, addr))
        /* LD (VF), A             */ .byte(0x32).word(vreg(0xF))
}

/// `8XYE` SHL: `Vx <<= 1` in place, then `VF` = the bit shifted out.
#[verifier::opaque]
pub open spec fn op_shl(s: Asm, x: u8) -> Asm {
    s
        /* LD A, (Vx)             */ .byte(0x3A).word(vreg(x))
        /* SLA A                  */ .byte(0xCB).byte(0x27)
        /* LD (Vx), A             */ .byte(0x32).word(vreg(x))
        /* LD A, 0                */ .byte(0x3E).byte(0)
        /* ADC A, 0x00            */ .byte(0xCE).byte(0x00)
        /* LD (VF), A             */ .byte(0x32).word(vreg(0xF))
}

/// `9XY0` SNE: skip the next instruction if `Vx != Vy`.
#[verifier::opaque]
pub open spec fn op_sne_reg(s: Asm, addr: u16, x: u8, y: u8) -> Asm {
    skip(
        s
            /* LD A, (Vx)             */ .byte(0x3A).word(vreg(x))
            /* LD HL, Vy              */ .byte(0x21).word(vreg(y))
            /* CP (HL)                */ .byte(0xBE),
        /* JP NZ, c8_(addr + 4) */ 0xC2,
        addr,
    )
}

/// `ANNN` LD I: `I = NNN`.
#[verifier::opaque]
pub open spec fn op_ld_i(s: Asm, nnn: u16) -> Asm {
    s
        /* LD HL, nnn             */ .byte(0x21).word(nnn)
        /* LD DE, CHIP8_I         */ .byte(0x11).word(CHIP8_I)
        /* LD A, L                */ .byte(0x7D)
        /* LD (DE), A             */ .byte(0x12)
        /* INC DE                 */ .byte(0x13)
        /* LD A, H                */ .byte(0x7C)
        /* LD (DE), A             */ .byte(0x12)
}

/// `BNNN` JP V0: push `V0 + NNN` and `RET` to it. Best effort: the value
/// is a CHIP-8 address, which is not where the translation of that
/// instruction lies.
#[verifier::opaque]
pub open spec fn op_jp_v0(s: Asm, nnn: u16) -> Asm {
    s
        /* LD A, (CHIP8_V0)       */ .byte(0x3A).word(CHIP8_V0)
        /* LD L, A                */ .byte(0x6F)
        /* LD H, 0                */ .byte(0x26).byte(0)
        /* LD DE, nnn             */ .byte(0x11).word(nnn)
        /* ADD HL, DE             */ .byte(0x19)
        /* PUSH HL                */ .byte(0xE5)
        /* RET                    */ .byte(0xC9)
}

/// `CXNN` RND: `Vx` = a pseudorandom byte `& NN`.
#[verifier::opaque]
pub open spec fn op_rnd(s: Asm, x: u8, nn: u8) -> Asm {
    s
        /* CALL rng               */ .byte(0xCD).refer(Label::Routine(Routine::Rng))
        /* AND nn                 */ .byte(0xE6).byte(nn)
        /* LD (Vx), A             */ .byte(0x32).word(vreg(x))
}

/// `DXYN` DRW: draw `N` sprite rows at the byte-aligned screen position
/// `DISPLAY_BUF + (Vy % 32) * 8 + (Vx % 64) / 8`. The sprite is read from
/// `FONT_DATA + I` if `I < 0x50`, else from the embedded ROM at
/// `chip8_rom_data + (I - 0x200)`. `VF` = collision flag; the screen is
/// then printed anew.
#[verifier::opaque]
pub open spec fn op_drw(s: Asm, addr: u16, x: u8, y: u8, n: u8) -> Asm {
    s
        /* LD A, (Vy)             */ .byte(0x3A).word(vreg(y))
        /* AND 0x1F               */ .byte(0xE6).byte(0x1F)
        /* LD L, A                */ .byte(0x6F)
        /* LD H, 0                */ .byte(0x26).byte(0)
        /* ADD HL, HL             */ .byte(0x29)
        /* ADD HL, HL             */ .byte(0x29)
        /* ADD HL, HL             */ .byte(0x29)
        /* LD A, (Vx)             */ .byte(0x3A).word(vreg(x))
        /* AND 0x3F               */ .byte(0xE6).byte(0x3F)
        /* SRL A                  */ .byte(0xCB).byte(0x3F)
        /* SRL A                  */ .byte(0xCB).byte(0x3F)
        /* SRL A                  */ .byte(0xCB).byte(0x3F)
        /* LD E, A                */ .byte(0x5F)
        /* LD D, 0                */ .byte(0x16).byte(0)
        /* ADD HL, DE             */ .byte(0x19)
        /* LD DE, DISPLAY_BUF     */ .byte(0x11).word(DISPLAY_BUF)
        /* ADD HL, DE             */ .byte(0x19)
        /* PUSH HL                */ .byte(0xE5)
        /* LD HL, CHIP8_I         */ .byte(0x21).word(CHIP8_I)
        /* LD E, (HL)             */ .byte(0x5E)
        /* INC HL                 */ .byte(0x23)
        /* LD D, (HL)             */ .byte(0x56)
        /* LD A, D                */ .byte(0x7A)
        /* OR A                   */ .byte(0xB7)
        /* JP NZ, draw_not_font   */ .byte(0xC2).refer(Label::Local(Local::DrawNotFont, addr))
        /* LD A, E                */ .byte(0x7B)
        /* CP 0x50                */ .byte(0xFE).byte(0x50)
        /* JP NC, draw_not_font   */ .byte(0xD2).refer(Label::Local(Local::DrawNotFont, addr))
        /* LD HL, FONT_DATA       */ .byte(0x21).word(FONT_DATA)
        /* ADD HL, DE             */ .byte(0x19)
        /* JP draw_have_sprite    */ .byte(0xC3).refer(Label::Local(Local::DrawHaveSprite, addr))
        /* draw_not_font:         */ .def(Label::Local(Local::DrawNotFont, addr))
        /* LD HL, 0x200           */ .byte(0x21).word(0x200)
        /* EX DE, HL              */ .byte(0xEB)
        /* OR A                   */ .byte(0xB7)
        /* SBC HL, DE             */ .byte(0xED).byte(0x52)
        /* EX DE, HL              */ .byte(0xEB)
        /* LD HL, chip8_rom_data  */ .byte(0x21).refer(Label::Routine(Routine::Chip8RomData))
        /* ADD HL, DE             */ .byte(0x19)
        /* draw_have_sprite:      */ .def(Label::Local(Local::DrawHaveSprite, addr))
        /* POP DE                 */ .byte(0xD1)
        /* LD B, n                */ .byte(0x06).byte(n)
        /* CALL draw_sprite       */ .byte(0xCD).refer(Label::Routine(Routine::DrawSprite))
        /* LD (VF), A             */ .byte(0x32).word(vreg(0xF))
        /* CALL refresh_display   */ .byte(0xCD).refer(Label::Routine(Routine::RefreshDisplay))
}

/// `EX9E` SKP: skip the next instruction if the key polled equals `Vx`.
#[verifier::opaque]
pub open spec fn op_skp(s: Asm, addr: u16, x: u8) -> Asm {
    skip(
        s
            /* CALL get_key           */ .byte(0xCD).refer(Label::Routine(Routine::GetKey))
            /* LD HL, Vx              */ .byte(0x21).word(vreg(x))
            /* CP (HL)                */ .byte(0xBE),
        /* JP Z, c8_(addr + 4) */ 0xCA,
        addr,
    )
}

/// `EXA1` SKNP: skip the next instruction if the key polled differs from
/// `Vx`.
#[verifier::opaque]
pub open spec fn op_sknp(s: Asm, addr: u16, x: u8) -> Asm {
    skip(
        s
            /* CALL get_key           */ .byte(0xCD).refer(Label::Routine(Routine::GetKey))
            /* LD HL, Vx              */ .byte(0x21).word(vreg(x))
            /* CP (HL)                */ .byte(0xBE),
        /* JP NZ, c8_(addr + 4) */ 0xC2,
        addr,
    )
}

/// `FX07` LD Vx, DT: `Vx` = delay timer.
#[verifier::opaque]
pub open spec fn op_ld_vx_dt(s: Asm, x: u8) -> Asm {
    s
        /* LD A, (CHIP8_DT)       */ .byte(0x3A).word(CHIP8_DT)
        /* LD (Vx), A             */ .byte(0x32).word(vreg(x))
}

/// `FX0A` LD Vx, K: wait for a key and store it in `Vx`.
#[verifier::opaque]
pub open spec fn op_ld_vx_k(s: Asm, x: u8) -> Asm {
    s
        /* CALL wait_key          */ .byte(0xCD).refer(Label::Routine(Routine::WaitKey))
        /* LD (Vx), A             */ .byte(0x32).word(vreg(x))
}

/// `FX15` LD DT, Vx: delay timer = `Vx`.
#[verifier::opaque]
pub open spec fn op_ld_dt_vx(s: Asm, x: u8) -> Asm {
    s
        /* LD A, (Vx)             */ .byte(0x3A).word(vreg(x))
        /* LD (CHIP8_DT), A       */ .byte(0x32).word(CHIP8_DT)
}

/// `FX18` LD ST, Vx: sound timer = `Vx`.
#[verifier::opaque]
pub open spec fn op_ld_st_vx(s: Asm, x: u8) -> Asm {
    s
        /* LD A, (Vx)             */ .byte(0x3A).word(vreg(x))
        /* LD (CHIP8_ST), A       */ .byte(0x32).word(CHIP8_ST)
}

/// `FX1E` ADD I, Vx: `I += Vx` in 16 bits; `VF` is untouched.
#[verifier::opaque]
pub open spec fn op_add_i(s: Asm, x: u8) -> Asm {
    s
        /* LD A, (Vx)             */ .byte(0x3A).word(vreg(x))
        /* LD L, A                */ .byte(0x6F)
        /* LD H, 0                */ .byte(0x26).byte(0)
        /* LD A, (CHIP8_I)        */ .byte(0x3A).word(CHIP8_I)
        /* LD E, A                */ .byte(0x5F)
        /* LD A, (CHIP8_I + 1)    */ .byte(0x3A).word((CHIP8_I + 1) as u16)
        /* LD D, A                */ .byte(0x57)
        /* ADD HL, DE             */ .byte(0x19)
        /* LD A, L                */ .byte(0x7D)
        /* LD (CHIP8_I), A        */ .byte(0x32).word(CHIP8_I)
        /* LD A, H                */ .byte(0x7C)
        /* LD (CHIP8_I + 1), A    */ .byte(0x32).word((CHIP8_I + 1) as u16)
}

/// `FX29` LD F, Vx: `I = 5 * (Vx & 0x0F)`, an offset into the font that
/// stays below `0x50`, so that DRW takes it for a font sprite.
#[verifier::opaque]
pub open spec fn op_ld_f(s: Asm, x: u8) -> Asm {
    s
        /* LD A, (Vx)             */ .byte(0x3A).word(vreg(x))
        /* AND 0x0F               */ .byte(0xE6).byte(0x0F)
        /* LD L, A                */ .byte(0x6F)
        /* LD H, 0                */ .byte(0x26).byte(0)
        /* ADD HL, HL             */ .byte(0x29)
        /* ADD HL, HL             */ .byte(0x29)
        /* LD E, A                */ .byte(0x5F)
        /* LD D, 0                */ .byte(0x16).byte(0)
        /* ADD HL, DE             */ .byte(0x19)
        /* LD DE, CHIP8_I         */ .byte(0x11).word(CHIP8_I)
        /* LD A, L                */ .byte(0x7D)
        /* LD (DE), A             */ .byte(0x12)
        /* INC DE                 */ .byte(0x13)
        /* LD A, H                */ .byte(0x7C)
        /* LD (DE), A             */ .byte(0x12)
}

/// `FX33` LD B, Vx: write the hundreds, tens and ones of `Vx` to the three
/// bytes from `CHIP8_RAM + (I - 0x200)` on.
#[verifier::opaque]
pub open spec fn op_bcd(s: Asm, addr: u16, x: u8) -> Asm {
    s
        /* LD A, (Vx)             */ .byte(0x3A).word(vreg(x))
        /* LD HL, CHIP8_I         */ .byte(0x21).word(CHIP8_I)
        /* LD E, (HL)             */ .byte(0x5E)
        /* INC HL                 */ .byte(0x23)
        /* LD D, (HL)             */ .byte(0x56)
        /* LD HL, CHIP8_RAM - 0x200 */ .byte(0x21).word((CHIP8_RAM - 0x200) as u16)
        /* ADD HL, DE             */ .byte(0x19)
        /* LD B, 0                */ .byte(0x06).byte(0)
        /* bcd_hundreds:          */ .def(Label::Local(Local::BcdHundreds, addr))
        /* CP 100                 */ .byte(0xFE).byte(100)
        /* JP C, bcd_tens         */ .byte(0xDA).refer(Label::Local(Local::BcdTens, addr))
        /* SUB 100                */ .byte(0xD6).byte(100)
        /* INC B                  */ .byte(0x04)
        /* JP bcd_hundreds        */ .byte(0xC3).refer(Label::Local(Local::BcdHundreds, addr))
        /* bcd_tens:              */ .def(Label::Local(Local::BcdTens, addr))
        /* PUSH AF                */ .byte(0xF5)
        /* LD A, B                */ .byte(0x78)
        /* LD (HL), A             */ .byte(0x77)
        /* INC HL                 */ .byte(0x23)
        /* POP AF                 */ .byte(0xF1)
        /* LD B, 0                */ .byte(0x06).byte(0)
        /* bcd_tens_loop:         */ .def(Label::Local(Local::BcdTensLoop, addr))
        /* CP 10                  */ .byte(0xFE).byte(10)
        /* JP C, bcd_ones         */ .byte(0xDA).refer(Label::Local(Local::BcdOnes, addr))
        /* SUB 10                 */ .byte(0xD6).byte(10)
        /* INC B                  */ .byte(0x04)
        /* JP bcd_tens_loop       */ .byte(0xC3).refer(Label::Local(Local::BcdTensLoop, addr))
        /* bcd_ones:              */ .def(Label::Local(Local::BcdOnes, addr))
        /* PUSH AF                */ .byte(0xF5)
        /* LD A, B                */ .byte(0x78)
        /* LD (HL), A             */ .byte(0x77)
        /* INC HL                 */ .byte(0x23)
        /* POP AF                 */ .byte(0xF1)
        /* LD (HL), A             */ .byte(0x77)
}

/// `FX55` LD [I], Vx: copy `V0..=Vx` to `CHIP8_RAM + (I - 0x200)`; `I` is
/// unchanged.
#[verifier::opaque]
pub open spec fn op_store(s: Asm, addr: u16, x: u8) -> Asm {
    s
        /* LD HL, CHIP8_I         */ .byte(0x21).word(CHIP8_I)
        /* LD E, (HL)             */ .byte(0x5E)
        /* INC HL                 */ .byte(0x23)
        /* LD D, (HL)             */ .byte(0x56)
        /* LD HL, CHIP8_RAM - 0x200 */ .byte(0x21).word((CHIP8_RAM - 0x200) as u16)
        /* ADD HL, DE             */ .byte(0x19)
        /* EX DE, HL              */ .byte(0xEB)
        /* LD HL, CHIP8_V0        */ .byte(0x21).word(CHIP8_V0)
        /* LD B, x + 1            */ .byte(0x06).byte((x + 1) as u8)
        /* store_regs:            */ .def(Label::Local(Local::StoreRegs, addr))
        /* LD A, (HL)             */ .byte(0x7E)
        /* LD (DE), A             */ .byte(0x12)
        /* INC HL                 */ .byte(0x23)
        /* INC DE                 */ .byte(0x13)
        /* DEC B                  */ .byte(0x05)
        /* JP NZ, store_regs      */ .byte(0xC2).refer(Label::Local(Local::StoreRegs, addr))
}

/// `FX65` LD Vx, [I]: copy `x + 1` bytes from `CHIP8_RAM + (I - 0x200)`
/// to the register file from `V0` on; `I` is unchanged.
#[verifier::opaque]
pub open spec fn op_load(s: Asm, addr: u16, x: u8) -> Asm {
    s
        /* LD HL, CHIP8_I         */ .byte(0x21).word(CHIP8_I)
        /* LD E, (HL)             */ .byte(0x5E)
        /* INC HL                 */ .byte(0x23)
        /* LD D, (HL)             */ .byte(0x56)
        /* LD HL, CHIP8_RAM - 0x200 */ .byte(0x21).word((CHIP8_RAM - 0x200) as u16)
        /* ADD HL, DE             */ .byte(0x19)
        /* LD DE, CHIP8_V0        */ .byte(0x11).word(CHIP8_V0)
        /* LD B, x + 1            */ .byte(0x06).byte((x + 1) as u8)
        /* load_regs:             */ .def(Label::Local(Local::LoadRegs, addr))
        /* LD A, (HL)             */ .byte(0x7E)
        /* LD (DE), A             */ .byte(0x12)
        /* INC HL                 */ .byte(0x23)
        /* INC DE                 */ .byte(0x13)
        /* DEC B                  */ .byte(0x05)
        /* JP NZ, load_regs       */ .byte(0xC2).refer(Label::Local(Local::LoadRegs, addr))
}

/// The translation of one instruction, appended to `s`. Patterns are tried
/// in the order written. `0NNN` (SYS) and every opcode that matches no
/// pattern translate to nothing.
pub open spec fn translate(s: Asm, inst: Instruction) -> Asm {
    let (c, x, y, n) = inst.spec_nibbles();
    let nn = inst.spec_nn();
    let nnn = inst.spec_nnn();
    let addr = inst.addr;
    if c == 0x0 && x == 0x0 && y == 0xE && n == 0x0 {
        op_cls(s)
    } else if c == 0x0 && x == 0x0 && y == 0xE && n == 0xE {
        op_ret(s)
    } else if c == 0x0 {
        s
    } else if c == 0x1 {
        op_jp(s, nnn)
    } else if c == 0x2 {
        op_call(s, addr, nnn)
    } else if c == 0x3 {
        op_se_imm(s, addr, x, nn)
    } else if c == 0x4 {
        op_sne_imm(s, addr, x, nn)
    } else if c == 0x5 && n == 0x0 {
        op_se_reg(s, addr, x, y)
    } else if c == 0x6 {
        op_ld_imm(s, x, nn)
    } else if c == 0x7 {
        op_add_imm(s, x, nn)
    } else if c == 0x8 && n == 0x0 {
        op_ld_reg(s, x, y)
    } else if c == 0x8 && n == 0x1 {
        op_or_reg(s, x, y)
    } else if c == 0x8 && n == 0x2 {
        op_and_reg(s, x, y)
    } else if c == 0x8 && n == 0x3 {
        op_xor_reg(s, x, y)
    } else if c == 0x8 && n == 0x4 {
        op_add_reg(s, x, y)
    } else if c == 0x8 && n == 0x5 {
        op_sub_reg(s, addr, x, y)
    } else if c == 0x8 && n == 0x6 {
        op_shr(s, x)
    } else if c == 0x8 && n == 0x7 {
        op_subn_reg(s, addr, x, y)
    } else if c == 0x8 && n == 0xE {
        op_shl(s, x)
    } else if c == 0x9 && n == 0x0 {
        op_sne_reg(s, addr, x, y)
    } else if c == 0xA {
        op_ld_i(s, nnn)
    } else if c == 0xB {
        op_jp_v0(s, nnn)
    } else if c == 0xC {
        op_rnd(s, x, nn)
    } else if c == 0xD {
        op_drw(s, addr, x, y, n)
    } else if c == 0xE && y == 0x9 && n == 0xE {
        op_skp(s, addr, x)
    } else if c == 0xE && y == 0xA && n == 0x1 {
        op_sknp(s, addr, x)
    } else if c == 0xF && y == 0x0 && n == 0x7 {
        op_ld_vx_dt(s, x)
    } else if c == 0xF && y == 0x0 && n == 0xA {
        op_ld_vx_k(s, x)
    } else if c == 0xF && y == 0x1 && n == 0x5 {
        op_ld_dt_vx(s, x)
    } else if c == 0xF && y == 0x1 && n == 0x8 {
        op_ld_st_vx(s, x)
    } else if c == 0xF && y == 0x1 && n == 0xE {
        op_add_i(s, x)
    } else if c == 0xF && y == 0x2 && n == 0x9 {
        op_ld_f(s, x)
    } else if c == 0xF && y == 0x3 && n == 0x3 {
        op_bcd(s, addr, x)
    } else if c == 0xF && y == 0x5 && n == 0x5 {
        op_store(s, addr, x)
    } else if c == 0xF && y == 0x6 && n == 0x5 {
        op_load(s, addr, x)
    } else {
        s
    }
}

/// The instruction is a `JP` or `CALL` to an address that holds no scanned
/// instruction.
pub open spec fn bad_branch(scanned: Set<u16>, inst: Instruction) -> bool {
    (inst.spec_class() == 1 || inst.spec_class() == 2) && !scanned.contains(inst.spec_nnn())
}

/// `l` is a local label of the instruction at `addr`.
pub open spec fn local_to(l: Label, addr: u16) -> bool {
    l matches Label::Local(_, a) && a == addr
}

/// [`op_cls`] continues the state it is given and defines no label.
pub proof fn lemma_op_cls(s: Asm)
    ensures
        grows(s, op_cls(s)),
        op_cls(s).labels == s.labels,
{
    reveal(op_cls);
    reveal(grows);
}

/// [`op_ret`] continues the state it is given and defines no label.
pub proof fn lemma_op_ret(s: Asm)
    ensures
        grows(s, op_ret(s)),
        op_ret(s).labels == s.labels,
{
    reveal(op_ret);
    reveal(grows);
}

/// [`op_jp`] continues the state it is given and defines no label.
pub proof fn lemma_op_jp(s: Asm, nnn: u16)
    requires
        s.scanned.contains(nnn),
    ensures
        grows(s, op_jp(s, nnn)),
        op_jp(s, nnn).labels == s.labels,
{
    reveal(op_jp);
    reveal(grows);
}

/// [`op_call`] continues the state it is given and defines no label.
pub proof fn lemma_op_call(s: Asm, addr: u16, nnn: u16)
    requires
        s.scanned.contains(nnn),
    ensures
        grows(s, op_call(s, addr, nnn)),
        op_call(s, addr, nnn).labels == s.labels,
{
    reveal(op_call);
    reveal(grows);
}

/// [`op_se_imm`] continues the state it is given and defines no label.
pub proof fn lemma_op_se_imm(s: Asm, addr: u16, x: u8, nn: u8)
    ensures
        grows(s, op_se_imm(s, addr, x, nn)),
        op_se_imm(s, addr, x, nn).labels == s.labels,
{
    reveal(op_se_imm);
    reveal(grows);
}

/// [`op_sne_imm`] continues the state it is given and defines no label.
pub proof fn lemma_op_sne_imm(s: Asm, addr: u16, x: u8, nn: u8)
    ensures
        grows(s, op_sne_imm(s, addr, x, nn)),
        op_sne_imm(s, addr, x, nn).labels == s.labels,
{
    reveal(op_sne_imm);
    reveal(grows);
}

/// [`op_se_reg`] continues the state it is given and defines no label.
pub proof fn lemma_op_se_reg(s: Asm, addr: u16, x: u8, y: u8)
    ensures
        grows(s, op_se_reg(s, addr, x, y)),
        op_se_reg(s, addr, x, y).labels == s.labels,
{
    reveal(op_se_reg);
    reveal(grows);
}

/// [`op_ld_imm`] continues the state it is given and defines no label.
pub proof fn lemma_op_ld_imm(s: Asm, x: u8, nn: u8)
    ensures
        grows(s, op_ld_imm(s, x, nn)),
        op_ld_imm(s, x, nn).labels == s.labels,
{
    reveal(op_ld_imm);
    reveal(grows);
}

/// [`op_add_imm`] continues the state it is given and defines no label.
pub proof fn lemma_op_add_imm(s: Asm, x: u8, nn: u8)
    ensures
        grows(s, op_add_imm(s, x, nn)),
        op_add_imm(s, x, nn).labels == s.labels,
{
    reveal(op_add_imm);
    reveal(grows);
}

/// [`op_ld_reg`] continues the state it is given and defines no label.
pub proof fn lemma_op_ld_reg(s: Asm, x: u8, y: u8)
    ensures
        grows(s, op_ld_reg(s, x, y)),
        op_ld_reg(s, x, y).labels == s.labels,
{
    reveal(op_ld_reg);
    reveal(grows);
}

/// [`op_or_reg`] continues the state it is given and defines no label.
pub proof fn lemma_op_or_reg(s: Asm, x: u8, y: u8)
    ensures
        grows(s, op_or_reg(s, x, y)),
        op_or_reg(s, x, y).labels == s.labels,
{
    reveal(op_or_reg);
    reveal(grows);
}

/// [`op_and_reg`] continues the state it is given and defines no label.
pub proof fn lemma_op_and_reg(s: Asm, x: u8, y: u8)
    ensures
        grows(s, op_and_reg(s, x, y)),
        op_and_reg(s, x, y).labels == s.labels,
{
    reveal(op_and_reg);
    reveal(grows);
}

/// [`op_xor_reg`] continues the state it is given and defines no label.
pub proof fn lemma_op_xor_reg(s: Asm, x: u8, y: u8)
    ensures
        grows(s, op_xor_reg(s, x, y)),
        op_xor_reg(s, x, y).labels == s.labels,
{
    reveal(op_xor_reg);
    reveal(grows);
}

/// [`op_add_reg`] continues the state it is given and defines no label.
pub proof fn lemma_op_add_reg(s: Asm, x: u8, y: u8)
    ensures
        grows(s, op_add_reg(s, x, y)),
        op_add_reg(s, x, y).labels == s.labels,
{
    reveal(op_add_reg);
    reveal(grows);
}

/// [`op_sub_reg`] continues the state it is given, and defines its own labels
/// and no others.
pub proof fn lemma_op_sub_reg(s: Asm, addr: u16, x: u8, y: u8)
    requires
        s.fresh(Label::Local(Local::NoBorrow, addr)),
    ensures
        grows(s, op_sub_reg(s, addr, x, y)),
        forall|l: Label|
            #![trigger op_sub_reg(s, addr, x, y).labels.contains_key(l)]
            op_sub_reg(s, addr, x, y).labels.contains_key(l) <==> s.labels.contains_key(l)
                || l == Label::Local(Local::NoBorrow, addr),
{
    reveal(op_sub_reg);
    reveal(grows);
}

/// [`op_shr`] continues the state it is given and defines no label.
pub proof fn lemma_op_shr(s: Asm, x: u8)
    ensures
        grows(s, op_shr(s, x)),
        op_shr(s, x).labels == s.labels,
{
    reveal(op_shr);
    reveal(grows);
}

/// [`op_subn_reg`] continues the state it is given, and defines its own labels
/// and no others.
pub proof fn lemma_op_subn_reg(s: Asm, addr: u16, x: u8, y: u8)
    requires
        s.fresh(Label::Local(Local::NoBorrow, addr)),
    ensures
        grows(s, op_subn_reg(s, addr, x, y)),
        forall|l: Label|
            #![trigger op_subn_reg(s, addr, x, y).labels.contains_key(l)]
            op_subn_reg(s, addr, x, y).labels.contains_key(l) <==> s.labels.contains_key(l)
                || l == Label::Local(Local::NoBorrow, addr),
{
    reveal(op_subn_reg);
    reveal(grows);
}

/// [`op_shl`] continues the state it is given and defines no label.
pub proof fn lemma_op_shl(s: Asm, x: u8)
    ensures
        grows(s, op_shl(s, x)),
        op_shl(s, x).labels == s.labels,
{
    reveal(op_shl);
    reveal(grows);
}

/// [`op_sne_reg`] continues the state it is given and defines no label.
pub proof fn lemma_op_sne_reg(s: Asm, addr: u16, x: u8, y: u8)
    ensures
        grows(s, op_sne_reg(s, addr, x, y)),
        op_sne_reg(s, addr, x, y).labels == s.labels,
{
    reveal(op_sne_reg);
    reveal(grows);
}

/// [`op_ld_i`] continues the state it is given and defines no label.
pub proof fn lemma_op_ld_i(s: Asm, nnn: u16)
    ensures
        grows(s, op_ld_i(s, nnn)),
        op_ld_i(s, nnn).labels == s.labels,
{
    reveal(op_ld_i);
    reveal(grows);
}

/// [`op_jp_v0`] continues the state it is given and defines no label.
pub proof fn lemma_op_jp_v0(s: Asm, nnn: u16)
    ensures
        grows(s, op_jp_v0(s, nnn)),
        op_jp_v0(s, nnn).labels == s.labels,
{
    reveal(op_jp_v0);
    reveal(grows);
}

/// [`op_rnd`] continues the state it is given and defines no label.
pub proof fn lemma_op_rnd(s: Asm, x: u8, nn: u8)
    ensures
        grows(s, op_rnd(s, x, nn)),
        op_rnd(s, x, nn).labels == s.labels,
{
    reveal(op_rnd);
    reveal(grows);
}

/// [`op_drw`] continues the state it is given, and defines its own labels
/// and no others.
pub proof fn lemma_op_drw(s: Asm, addr: u16, x: u8, y: u8, n: u8)
    requires
        s.fresh(Label::Local(Local::DrawNotFont, addr)),
        s.fresh(Label::Local(Local::DrawHaveSprite, addr)),
    ensures
        grows(s, op_drw(s, addr, x, y, n)),
        forall|l: Label|
            #![trigger op_drw(s, addr, x, y, n).labels.contains_key(l)]
            op_drw(s, addr, x, y, n).labels.contains_key(l) <==> s.labels.contains_key(l)
                || l == Label::Local(Local::DrawNotFont, addr)
                || l == Label::Local(Local::DrawHaveSprite, addr),
{
    reveal(op_drw);
    reveal(grows);
}

/// [`op_skp`] continues the state it is given and defines no label.
pub proof fn lemma_op_skp(s: Asm, addr: u16, x: u8)
    ensures
        grows(s, op_skp(s, addr, x)),
        op_skp(s, addr, x).labels == s.labels,
{
    reveal(op_skp);
    reveal(grows);
}

/// [`op_sknp`] continues the state it is given and defines no label.
pub proof fn lemma_op_sknp(s: Asm, addr: u16, x: u8)
    ensures
        grows(s, op_sknp(s, addr, x)),
        op_sknp(s, addr, x).labels == s.labels,
{
    reveal(op_sknp);
    reveal(grows);
}

/// [`op_ld_vx_dt`] continues the state it is given and defines no label.
pub proof fn lemma_op_ld_vx_dt(s: Asm, x: u8)
    ensures
        grows(s, op_ld_vx_dt(s, x)),
        op_ld_vx_dt(s, x).labels == s.labels,
{
    reveal(op_ld_vx_dt);
    reveal(grows);
}

/// [`op_ld_vx_k`] continues the state it is given and defines no label.
pub proof fn lemma_op_ld_vx_k(s: Asm, x: u8)
    ensures
        grows(s, op_ld_vx_k(s, x)),
        op_ld_vx_k(s, x).labels == s.labels,
{
    reveal(op_ld_vx_k);
    reveal(grows);
}

/// [`op_ld_dt_vx`] continues the state it is given and defines no label.
pub proof fn lemma_op_ld_dt_vx(s: Asm, x: u8)
    ensures
        grows(s, op_ld_dt_vx(s, x)),
        op_ld_dt_vx(s, x).labels == s.labels,
{
    reveal(op_ld_dt_vx);
    reveal(grows);
}

/// [`op_ld_st_vx`] continues the state it is given and defines no label.
pub proof fn lemma_op_ld_st_vx(s: Asm, x: u8)
    ensures
        grows(s, op_ld_st_vx(s, x)),
        op_ld_st_vx(s, x).labels == s.labels,
{
    reveal(op_ld_st_vx);
    reveal(grows);
}

/// [`op_add_i`] continues the state it is given and defines no label.
pub proof fn lemma_op_add_i(s: Asm, x: u8)
    ensures
        grows(s, op_add_i(s, x)),
        op_add_i(s, x).labels == s.labels,
{
    reveal(op_add_i);
    reveal(grows);
}

/// [`op_ld_f`] continues the state it is given and defines no label.
pub proof fn lemma_op_ld_f(s: Asm, x: u8)
    ensures
        grows(s, op_ld_f(s, x)),
        op_ld_f(s, x).labels == s.labels,
{
    reveal(op_ld_f);
    reveal(grows);
}

/// [`op_bcd`] continues the state it is given, and defines its own labels
/// and no others.
pub proof fn lemma_op_bcd(s: Asm, addr: u16, x: u8)
    requires
        s.fresh(Label::Local(Local::BcdHundreds, addr)),
        s.fresh(Label::Local(Local::BcdTens, addr)),
        s.fresh(Label::Local(Local::BcdTensLoop, addr)),
        s.fresh(Label::Local(Local::BcdOnes, addr)),
    ensures
        grows(s, op_bcd(s, addr, x)),
        forall|l: Label|
            #![trigger op_bcd(s, addr, x).labels.contains_key(l)]
            op_bcd(s, addr, x).labels.contains_key(l) <==> s.labels.contains_key(l)
                || l == Label::Local(Local::BcdHundreds, addr)
                || l == Label::Local(Local::BcdTens, addr)
                || l == Label::Local(Local::BcdTensLoop, addr)
                || l == Label::Local(Local::BcdOnes, addr),
{
    reveal(op_bcd);
    reveal(grows);
}

/// [`op_store`] continues the state it is given, and defines its own labels
/// and no others.
pub proof fn lemma_op_store(s: Asm, addr: u16, x: u8)
    requires
        s.fresh(Label::Local(Local::StoreRegs, addr)),
    ensures
        grows(s, op_store(s, addr, x)),
        forall|l: Label|
            #![trigger op_store(s, addr, x).labels.contains_key(l)]
            op_store(s, addr, x).labels.contains_key(l) <==> s.labels.contains_key(l)
                || l == Label::Local(Local::StoreRegs, addr),
{
    reveal(op_store);
    reveal(grows);
}

/// [`op_load`] continues the state it is given, and defines its own labels
/// and no others.
pub proof fn lemma_op_load(s: Asm, addr: u16, x: u8)
    requires
        s.fresh(Label::Local(Local::LoadRegs, addr)),
    ensures
        grows(s, op_load(s, addr, x)),
        forall|l: Label|
            #![trigger op_load(s, addr, x).labels.contains_key(l)]
            op_load(s, addr, x).labels.contains_key(l) <==> s.labels.contains_key(l)
                || l == Label::Local(Local::LoadRegs, addr),
{
    reveal(op_load);
    reveal(grows);
}

/// The translation of an instruction continues the state it is given, and
/// defines local labels of that instruction only.
pub proof fn lemma_translate(s: Asm, inst: Instruction)
    requires
        forall|k: Local| s.fresh(Label::Local(k, inst.addr)),
        !bad_branch(s.scanned, inst),
    ensures
        grows(s, translate(s, inst)),
        forall|l: Label|
            #![trigger translate(s, inst).labels.contains_key(l)]
            translate(s, inst).labels.contains_key(l) ==> s.labels.contains_key(l) || local_to(
                l,
                inst.addr,
            ),
{
    let (c, x, y, n) = inst.spec_nibbles();
    let nn = inst.spec_nn();
    let nnn = inst.spec_nnn();
    let addr = inst.addr;
    if c == 0x0 && x == 0x0 && y == 0xE && n == 0x0 {
        lemma_op_cls(s);
    } else if c == 0x0 && x == 0x0 && y == 0xE && n == 0xE {
        lemma_op_ret(s);
    } else if c == 0x0 {
        lemma_grows_refl(s);
    } else if c == 0x1 {
        lemma_op_jp(s, nnn);
    } else if c == 0x2 {
        lemma_op_call(s, addr, nnn);
    } else if c == 0x3 {
        lemma_op_se_imm(s, addr, x, nn);
    } else if c == 0x4 {
        lemma_op_sne_imm(s, addr, x, nn);
    } else if c == 0x5 && n == 0x0 {
        lemma_op_se_reg(s, addr, x, y);
    } else if c == 0x6 {
        lemma_op_ld_imm(s, x, nn);
    } else if c == 0x7 {
        lemma_op_add_imm(s, x, nn);
    } else if c == 0x8 && n == 0x0 {
        lemma_op_ld_reg(s, x, y);
    } else if c == 0x8 && n == 0x1 {
        lemma_op_or_reg(s, x, y);
    } else if c == 0x8 && n == 0x2 {
        lemma_op_and_reg(s, x, y);
    } else if c == 0x8 && n == 0x3 {
        lemma_op_xor_reg(s, x, y);
    } else if c == 0x8 && n == 0x4 {
        lemma_op_add_reg(s, x, y);
    } else if c == 0x8 && n == 0x5 {
        lemma_op_sub_reg(s, addr, x, y);
    } else if c == 0x8 && n == 0x6 {
        lemma_op_shr(s, x);
    } else if c == 0x8 && n == 0x7 {
        lemma_op_subn_reg(s, addr, x, y);
    } else if c == 0x8 && n == 0xE {
        lemma_op_shl(s, x);
    } else if c == 0x9 && n == 0x0 {
        lemma_op_sne_reg(s, addr, x, y);
    } else if c == 0xA {
        lemma_op_ld_i(s, nnn);
    } else if c == 0xB {
        lemma_op_jp_v0(s, nnn);
    } else if c == 0xC {
        lemma_op_rnd(s, x, nn);
    } else if c == 0xD {
        lemma_op_drw(s, addr, x, y, n);
    } else if c == 0xE && y == 0x9 && n == 0xE {
        lemma_op_skp(s, addr, x);
    } else if c == 0xE && y == 0xA && n == 0x1 {
        lemma_op_sknp(s, addr, x);
    } else if c == 0xF && y == 0x0 && n == 0x7 {
        lemma_op_ld_vx_dt(s, x);
    } else if c == 0xF && y == 0x0 && n == 0xA {
        lemma_op_ld_vx_k(s, x);
    } else if c == 0xF && y == 0x1 && n == 0x5 {
        lemma_op_ld_dt_vx(s, x);
    } else if c == 0xF && y == 0x1 && n == 0x8 {
        lemma_op_ld_st_vx(s, x);
    } else if c == 0xF && y == 0x1 && n == 0xE {
        lemma_op_add_i(s, x);
    } else if c == 0xF && y == 0x2 && n == 0x9 {
        lemma_op_ld_f(s, x);
    } else if c == 0xF && y == 0x3 && n == 0x3 {
        lemma_op_bcd(s, addr, x);
    } else if c == 0xF && y == 0x5 && n == 0x5 {
        lemma_op_store(s, addr, x);
    } else if c == 0xF && y == 0x6 && n == 0x5 {
        lemma_op_load(s, addr, x);
    } else {
        lemma_grows_refl(s);
    }
}

impl Compiler {
    /// The label that a skip at `addr` branches to, if there is one.
    pub(crate) fn skip_label(&self, addr: u16) -> (r: Option<Label>)
        requires
            self.wf(),
        ensures
            r == skip_target(self@, addr),
    {
        if addr > 0xFFFB {
            None
        } else {
            self.chip8_label(addr + 4)
        }
    }

    /// End a skip instruction at `addr` with a branch on zero.
    pub(crate) fn skip_z(&mut self, addr: u16)
        requires
            old(self).wf(),
        ensures
            final(self).wf(),
            final(self)@ == skip(old(self)@, 0xCA, addr),
    {
        match self.skip_label(addr) {
            Some(label) => {
                self.jp_z_label(label);
            },
            None => {},
        }
    }

    /// End a skip instruction at `addr` with a branch on not zero.
    pub(crate) fn skip_nz(&mut self, addr: u16)
        requires
            old(self).wf(),
        ensures
            final(self).wf(),
            final(self)@ == skip(old(self)@, 0xC2, addr),
    {
        match self.skip_label(addr) {
            Some(label) => {
                self.jp_nz_label(label);
            },
            None => {},
        }
    }

    /// Emit [`op_cls`].
    pub(crate) fn compile_cls(&mut self)
        requires
            old(self).wf(),
        ensures
            final(self).wf(),
            final(self)@ == op_cls(old(self)@),
    {
        proof {
            reveal(op_cls);
        }
        self.call_label(Label::Routine(Routine::Cls));
    }

    /// Emit [`op_ret`].
    pub(crate) fn compile_ret(&mut self)
        requires
            old(self).wf(),
        ensures
            final(self).wf(),
            final(self)@ == op_ret(old(self)@),
    {
        proof {
            reveal(op_ret);
        }
        // Pop return address from CHIP-8 stack
        self.ld_hl_nn(CHIP8_SP);
        self.ld_a_hl();
        self.dec_a();
        self.ld_hl_a();
        // Get address from stack
        self.ld_l_a();
        self.ld_h_n(0);
        self.add_hl_hl();
        self.ld_de_nn(CHIP8_STACK);
        self.add_hl_de();
        self.ld_e_hl();
        self.inc_hl();
        self.ld_d_hl();
        // Jump to DE
        self.push_de();
        self.ret();
    }

    /// Emit [`op_jp`].
    pub(crate) fn compile_jp(&mut self, nnn: u16)
        requires
            old(self).wf(),
            old(self)@.scanned.contains(nnn),
        ensures
            final(self).wf(),
            final(self)@ == op_jp(old(self)@, nnn),
    {
        proof {
            reveal(op_jp);
        }
        self.jp_label(Label::Chip8(nnn));
    }

    /// Emit [`op_call`].
    pub(crate) fn compile_call(&mut self, addr: u16, nnn: u16)
        requires
            old(self).wf(),
            old(self)@.scanned.contains(nnn),
        ensures
            final(self).wf(),
            final(self)@ == op_call(old(self)@, addr, nnn),
    {
        proof {
            reveal(op_call);
        }
        let ret_addr = addr.wrapping_add(2);
        assert(ret_addr & 0xFF == ret_addr % 256 && ret_addr >> 8 == ret_addr / 256)
            by (bit_vector);
        let low = (ret_addr & 0xFF) as u8;
        let high = (ret_addr >> 8) as u8;
        // Push return address to CHIP-8 stack
        // Return address is next CHIP-8 instruction
        self.ld_hl_nn(CHIP8_SP);
        self.ld_a_hl();
        self.ld_l_a();
        self.ld_h_n(0);
        self.add_hl_hl();
        self.ld_de_nn(CHIP8_STACK);
        self.add_hl_de();
        // Store return address
        self.ld_a_n(low);
        self.ld_hl_a();
        self.inc_hl();
        self.ld_a_n(high);
        self.ld_hl_a();
        // Increment SP
        self.ld_hl_nn(CHIP8_SP);
        self.inc_hl_ind();
        // Jump to subroutine
        self.jp_label(Label::Chip8(nnn));
    }

    /// Emit [`op_se_imm`].
    pub(crate) fn compile_se_imm(&mut self, addr: u16, x: u8, nn: u8)
        requires
            old(self).wf(),
            x < 16,
        ensures
            final(self).wf(),
            final(self)@ == op_se_imm(old(self)@, addr, x, nn),
    {
        proof {
            reveal(op_se_imm);
        }
        // Load Vx
        self.ld_a_mem(CHIP8_V0 + x as u16);
        self.cp_n(nn);
        // Skip next instruction if equal
        self.skip_z(addr);
    }

    /// Emit [`op_sne_imm`].
    pub(crate) fn compile_sne_imm(&mut self, addr: u16, x: u8, nn: u8)
        requires
            old(self).wf(),
            x < 16,
        ensures
            final(self).wf(),
            final(self)@ == op_sne_imm(old(self)@, addr, x, nn),
    {
        proof {
            reveal(op_sne_imm);
        }
        self.ld_a_mem(CHIP8_V0 + x as u16);
        self.cp_n(nn);
        self.skip_nz(addr);
    }

    /// Emit [`op_se_reg`].
    pub(crate) fn compile_se_reg(&mut self, addr: u16, x: u8, y: u8)
        requires
            old(self).wf(),
            x < 16,
            y < 16,
        ensures
            final(self).wf(),
            final(self)@ == op_se_reg(old(self)@, addr, x, y),
    {
        proof {
            reveal(op_se_reg);
        }
        self.ld_a_mem(CHIP8_V0 + x as u16);
        self.ld_hl_nn(CHIP8_V0 + y as u16);
        self.cp_hl();
        self.skip_z(addr);
    }

    /// Emit [`op_ld_imm`].
    pub(crate) fn compile_ld_imm(&mut self, x: u8, nn: u8)
        requires
            old(self).wf(),
            x < 16,
        ensures
            final(self).wf(),
            final(self)@ == op_ld_imm(old(self)@, x, nn),
    {
        proof {
            reveal(op_ld_imm);
        }
        self.ld_a_n(nn);
        self.ld_mem_a(CHIP8_V0 + x as u16);
    }

    /// Emit [`op_add_imm`].
    pub(crate) fn compile_add_imm(&mut self, x: u8, nn: u8)
        requires
            old(self).wf(),
            x < 16,
        ensures
            final(self).wf(),
            final(self)@ == op_add_imm(old(self)@, x, nn),
    {
        proof {
            reveal(op_add_imm);
        }
        self.ld_a_mem(CHIP8_V0 + x as u16);
        self.add_a_n(nn);
        self.ld_mem_a(CHIP8_V0 + x as u16);
    }

    /// Emit [`op_ld_reg`].
    pub(crate) fn compile_ld_reg(&mut self, x: u8, y: u8)
        requires
            old(self).wf(),
            x < 16,
            y < 16,
        ensures
            final(self).wf(),
            final(self)@ == op_ld_reg(old(self)@, x, y),
    {
        proof {
            reveal(op_ld_reg);
        }
        self.ld_a_mem(CHIP8_V0 + y as u16);
        self.ld_mem_a(CHIP8_V0 + x as u16);
    }

    /// Emit [`op_or_reg`].
    pub(crate) fn compile_or_reg(&mut self, x: u8, y: u8)
        requires
            old(self).wf(),
            x < 16,
            y < 16,
        ensures
            final(self).wf(),
            final(self)@ == op_or_reg(old(self)@, x, y),
    {
        proof {
            reveal(op_or_reg);
        }
        self.ld_a_mem(CHIP8_V0 + x as u16);
        self.ld_hl_nn(CHIP8_V0 + y as u16);
        self.or_hl();
        self.ld_mem_a(CHIP8_V0 + x as u16);
    }

    /// Emit [`op_and_reg`].
    pub(crate) fn compile_and_reg(&mut self, x: u8, y: u8)
        requires
            old(self).wf(),
            x < 16,
            y < 16,
        ensures
            final(self).wf(),
            final(self)@ == op_and_reg(old(self)@, x, y),
    {
        proof {
            reveal(op_and_reg);
        }
        self.ld_a_mem(CHIP8_V0 + x as u16);
        self.ld_hl_nn(CHIP8_V0 + y as u16);
        self.and_hl();
        self.ld_mem_a(CHIP8_V0 + x as u16);
    }

    /// Emit [`op_xor_reg`].
    pub(crate) fn compile_xor_reg(&mut self, x: u8, y: u8)
        requires
            old(self).wf(),
            x < 16,
            y < 16,
        ensures
            final(self).wf(),
            final(self)@ == op_xor_reg(old(self)@, x, y),
    {
        proof {
            reveal(op_xor_reg);
        }
        self.ld_a_mem(CHIP8_V0 + x as u16);
        self.ld_hl_nn(CHIP8_V0 + y as u16);
        self.xor_hl();
        self.ld_mem_a(CHIP8_V0 + x as u16);
    }

    /// Emit [`op_add_reg`].
    pub(crate) fn compile_add_reg(&mut self, x: u8, y: u8)
        requires
            old(self).wf(),
            x < 16,
            y < 16,
        ensures
            final(self).wf(),
            final(self)@ == op_add_reg(old(self)@, x, y),
    {
        proof {
            reveal(op_add_reg);
        }
        self.ld_a_mem(CHIP8_V0 + x as u16);
        self.ld_hl_nn(CHIP8_V0 + y as u16);
        self.add_a_hl();
        self.ld_mem_a(CHIP8_V0 + x as u16);
        // Set VF to carry
        self.ld_a_n(0);
        self.adc_a_n(0x00);
        self.ld_mem_a(CHIP8_V0 + 0xF);
    }

    /// Emit [`op_sub_reg`].
    pub(crate) fn compile_sub_reg(
        &mut self,
        addr: u16,
        x: u8,
        y: u8,
    ) -> (r: Result<(), CompileError>)
        requires
            old(self).wf(),
            x < 16,
            y < 16,
            old(self)@.fresh(Label::Local(Local::NoBorrow, addr)),
        ensures
            final(self).wf(),
            r is Ok,
            final(self)@ == op_sub_reg(old(self)@, addr, x, y),
    {
        proof {
            reveal(op_sub_reg);
        }
        self.ld_a_mem(CHIP8_V0 + x as u16);
        self.ld_hl_nn(CHIP8_V0 + y as u16);
        self.sub_hl();
        self.ld_mem_a(CHIP8_V0 + x as u16);
        // VF = NOT borrow (1 if no borrow)
        self.ld_a_n(1);
        self.jr_nc(Label::Local(Local::NoBorrow, addr));
        self.xor_a();
        self.label(Label::Local(Local::NoBorrow, addr))?;
        self.ld_mem_a(CHIP8_V0 + 0xF);
        Ok(())
    }

    /// Emit [`op_shr`].
    pub(crate) fn compile_shr(&mut self, x: u8)
        requires
            old(self).wf(),
            x < 16,
        ensures
            final(self).wf(),
            final(self)@ == op_shr(old(self)@, x),
    {
        proof {
            reveal(op_shr);
        }
        self.ld_a_mem(CHIP8_V0 + x as u16);
        self.srl_a();
        self.ld_mem_a(CHIP8_V0 + x as u16);
        // VF = old LSB
        self.ld_a_n(0);
        self.adc_a_n(0x00);
        self.ld_mem_a(CHIP8_V0 + 0xF);
    }

    /// Emit [`op_subn_reg`].
    pub(crate) fn compile_subn_reg(
        &mut self,
        addr: u16,
        x: u8,
        y: u8,
    ) -> (r: Result<(), CompileError>)
        requires
            old(self).wf(),
            x < 16,
            y < 16,
            old(self)@.fresh(Label::Local(Local::NoBorrow, addr)),
        ensures
            final(self).wf(),
            r is Ok,
            final(self)@ == op_subn_reg(old(self)@, addr, x, y),
    {
        proof {
            reveal(op_subn_reg);
        }
        self.ld_a_mem(CHIP8_V0 + y as u16);
        self.ld_hl_nn(CHIP8_V0 + x as u16);
        self.sub_hl();
        self.ld_mem_a(CHIP8_V0 + x as u16);
        self.ld_a_n(1);
        self.jr_nc(Label::Local(Local::NoBorrow, addr));
        self.xor_a();
        self.label(Label::Local(Local::NoBorrow, addr))?;
        self.ld_mem_a(CHIP8_V0 + 0xF);
        Ok(())
    }

    /// Emit [`op_shl`].
    pub(crate) fn compile_shl(&mut self, x: u8)
        requires
            old(self).wf(),
            x < 16,
        ensures
            final(self).wf(),
            final(self)@ == op_shl(old(self)@, x),
    {
        proof {
            reveal(op_shl);
        }
        self.ld_a_mem(CHIP8_V0 + x as u16);
        self.sla_a();
        self.ld_mem_a(CHIP8_V0 + x as u16);
        // VF = old MSB (now in carry)
        self.ld_a_n(0);
        self.adc_a_n(0x00);
        self.ld_mem_a(CHIP8_V0 + 0xF);
    }

    /// Emit [`op_sne_reg`].
    pub(crate) fn compile_sne_reg(&mut self, addr: u16, x: u8, y: u8)
        requires
            old(self).wf(),
            x < 16,
            y < 16,
        ensures
            final(self).wf(),
            final(self)@ == op_sne_reg(old(self)@, addr, x, y),
    {
        proof {
            reveal(op_sne_reg);
        }
        self.ld_a_mem(CHIP8_V0 + x as u16);
        self.ld_hl_nn(CHIP8_V0 + y as u16);
        self.cp_hl();
        self.skip_nz(addr);
    }

    /// Emit [`op_ld_i`].
    pub(crate) fn compile_ld_i(&mut self, nnn: u16)
        requires
            old(self).wf(),
        ensures
            final(self).wf(),
            final(self)@ == op_ld_i(old(self)@, nnn),
    {
        proof {
            reveal(op_ld_i);
        }
        self.ld_hl_nn(nnn);
        self.ld_de_nn(CHIP8_I);
        self.ld_a_l();
        self.ld_de_a();
        self.inc_de();
        self.ld_a_h();
        self.ld_de_a();
    }

    /// Emit [`op_jp_v0`].
    pub(crate) fn compile_jp_v0(&mut self, nnn: u16)
        requires
            old(self).wf(),
        ensures
            final(self).wf(),
            final(self)@ == op_jp_v0(old(self)@, nnn),
    {
        proof {
            reveal(op_jp_v0);
        }
        self.ld_a_mem(CHIP8_V0);
        self.ld_l_a();
        self.ld_h_n(0);
        self.ld_de_nn(nnn);
        self.add_hl_de();
        self.push_hl();
        self.ret();
    }

    /// Emit [`op_rnd`].
    pub(crate) fn compile_rnd(&mut self, x: u8, nn: u8)
        requires
            old(self).wf(),
            x < 16,
        ensures
            final(self).wf(),
            final(self)@ == op_rnd(old(self)@, x, nn),
    {
        proof {
            reveal(op_rnd);
        }
        self.call_label(Label::Routine(Routine::Rng));
        self.and_n(nn);
        self.ld_mem_a(CHIP8_V0 + x as u16);
    }

    /// Emit [`op_drw`].
    pub(crate) fn compile_drw(
        &mut self,
        addr: u16,
        x: u8,
        y: u8,
        n: u8,
    ) -> (r: Result<(), CompileError>)
        requires
            old(self).wf(),
            x < 16,
            y < 16,
            n < 16,
            old(self)@.fresh(Label::Local(Local::DrawNotFont, addr)),
            old(self)@.fresh(Label::Local(Local::DrawHaveSprite, addr)),
        ensures
            final(self).wf(),
            r is Ok,
            final(self)@ == op_drw(old(self)@, addr, x, y, n),
    {
        proof {
            reveal(op_drw);
        }
        // Calculate screen address: (Vy * 8) + (Vx / 8) + DISPLAY_BUF
        self.ld_a_mem(CHIP8_V0 + y as u16);
        self.and_n(0x1F);
        self.ld_l_a();
        self.ld_h_n(0);
        // *8 (8 bytes per row)
        self.add_hl_hl();
        self.add_hl_hl();
        self.add_hl_hl();
        // Add X/8
        self.ld_a_mem(CHIP8_V0 + x as u16);
        self.and_n(0x3F);
        self.srl_a();
        self.srl_a();
        self.srl_a();
        self.ld_e_a();
        self.ld_d_n(0);
        self.add_hl_de();
        self.ld_de_nn(DISPLAY_BUF);
        self.add_hl_de();
        self.push_hl();
        // Get sprite address from I
        self.ld_hl_nn(CHIP8_I);
        self.ld_e_hl();
        self.inc_hl();
        self.ld_d_hl();
        // Add FONT_DATA base if I < 0x50 (font sprite)
        self.ld_a_d();
        self.or_a();
        self.jr_nz(Label::Local(Local::DrawNotFont, addr));
        self.ld_a_e();
        self.cp_n(0x50);
        self.jr_nc(Label::Local(Local::DrawNotFont, addr));
        // Font sprite: HL = FONT_DATA + I
        self.ld_hl_nn(FONT_DATA);
        self.add_hl_de();
        self.jr_label(Label::Local(Local::DrawHaveSprite, addr));
        self.label(Label::Local(Local::DrawNotFont, addr))?;
        // Custom sprite: I is CHIP-8 address (>= 0x200)
        // Convert to Z80 address: chip8_rom_data + (I - 0x200)
        self.ld_hl_nn(0x200);
        self.ex_de_hl();
        self.or_a();
        self.sbc_hl_de();
        self.ex_de_hl();
        self.ld_hl_label(Label::Routine(Routine::Chip8RomData));
        self.add_hl_de();
        self.label(Label::Local(Local::DrawHaveSprite, addr))?;
        // HL = sprite address
        self.pop_de();
        self.ld_b_n(n);
        self.call_label(Label::Routine(Routine::DrawSprite));
        // Store VF
        self.ld_mem_a(CHIP8_V0 + 0xF);
        // Refresh display
        self.call_label(Label::Routine(Routine::RefreshDisplay));
        Ok(())
    }

    /// Emit [`op_skp`].
    pub(crate) fn compile_skp(&mut self, addr: u16, x: u8)
        requires
            old(self).wf(),
            x < 16,
        ensures
            final(self).wf(),
            final(self)@ == op_skp(old(self)@, addr, x),
    {
        proof {
            reveal(op_skp);
        }
        self.call_label(Label::Routine(Routine::GetKey));
        self.ld_hl_nn(CHIP8_V0 + x as u16);
        self.cp_hl();
        self.skip_z(addr);
    }

    /// Emit [`op_sknp`].
    pub(crate) fn compile_sknp(&mut self, addr: u16, x: u8)
        requires
            old(self).wf(),
            x < 16,
        ensures
            final(self).wf(),
            final(self)@ == op_sknp(old(self)@, addr, x),
    {
        proof {
            reveal(op_sknp);
        }
        self.call_label(Label::Routine(Routine::GetKey));
        self.ld_hl_nn(CHIP8_V0 + x as u16);
        self.cp_hl();
        self.skip_nz(addr);
    }

    /// Emit [`op_ld_vx_dt`].
    pub(crate) fn compile_ld_vx_dt(&mut self, x: u8)
        requires
            old(self).wf(),
            x < 16,
        ensures
            final(self).wf(),
            final(self)@ == op_ld_vx_dt(old(self)@, x),
    {
        proof {
            reveal(op_ld_vx_dt);
        }
        self.ld_a_mem(CHIP8_DT);
        self.ld_mem_a(CHIP8_V0 + x as u16);
    }

    /// Emit [`op_ld_vx_k`].
    pub(crate) fn compile_ld_vx_k(&mut self, x: u8)
        requires
            old(self).wf(),
            x < 16,
        ensures
            final(self).wf(),
            final(self)@ == op_ld_vx_k(old(self)@, x),
    {
        proof {
            reveal(op_ld_vx_k);
        }
        self.call_label(Label::Routine(Routine::WaitKey));
        self.ld_mem_a(CHIP8_V0 + x as u16);
    }

    /// Emit [`op_ld_dt_vx`].
    pub(crate) fn compile_ld_dt_vx(&mut self, x: u8)
        requires
            old(self).wf(),
            x < 16,
        ensures
            final(self).wf(),
            final(self)@ == op_ld_dt_vx(old(self)@, x),
    {
        proof {
            reveal(op_ld_dt_vx);
        }
        self.ld_a_mem(CHIP8_V0 + x as u16);
        self.ld_mem_a(CHIP8_DT);
    }

    /// Emit [`op_ld_st_vx`].
    pub(crate) fn compile_ld_st_vx(&mut self, x: u8)
        requires
            old(self).wf(),
            x < 16,
        ensures
            final(self).wf(),
            final(self)@ == op_ld_st_vx(old(self)@, x),
    {
        proof {
            reveal(op_ld_st_vx);
        }
        self.ld_a_mem(CHIP8_V0 + x as u16);
        self.ld_mem_a(CHIP8_ST);
    }

    /// Emit [`op_add_i`].
    pub(crate) fn compile_add_i(&mut self, x: u8)
        requires
            old(self).wf(),
            x < 16,
        ensures
            final(self).wf(),
            final(self)@ == op_add_i(old(self)@, x),
    {
        proof {
            reveal(op_add_i);
        }
        self.ld_a_mem(CHIP8_V0 + x as u16);
        self.ld_l_a();
        self.ld_h_n(0);
        // DE = I
        self.ld_a_mem(CHIP8_I);
        self.ld_e_a();
        self.ld_a_mem(CHIP8_I + 1);
        self.ld_d_a();
        self.add_hl_de();
        // I = HL
        self.ld_a_l();
        self.ld_mem_a(CHIP8_I);
        self.ld_a_h();
        self.ld_mem_a(CHIP8_I + 1);
    }

    /// Emit [`op_ld_f`].
    pub(crate) fn compile_ld_f(&mut self, x: u8)
        requires
            old(self).wf(),
            x < 16,
        ensures
            final(self).wf(),
            final(self)@ == op_ld_f(old(self)@, x),
    {
        proof {
            reveal(op_ld_f);
        }
        self.ld_a_mem(CHIP8_V0 + x as u16);
        self.and_n(0x0F);
        // Multiply by 5 (each font char is 5 bytes)
        self.ld_l_a();
        self.ld_h_n(0);
        self.add_hl_hl();
        self.add_hl_hl();
        self.ld_e_a();
        self.ld_d_n(0);
        self.add_hl_de();
        // Store offset in I (don't add FONT_DATA here - DRW will handle it)
        self.ld_de_nn(CHIP8_I);
        self.ld_a_l();
        self.ld_de_a();
        self.inc_de();
        self.ld_a_h();
        self.ld_de_a();
    }

    /// Emit [`op_bcd`].
    pub(crate) fn compile_bcd(&mut self, addr: u16, x: u8) -> (r: Result<(), CompileError>)
        requires
            old(self).wf(),
            x < 16,
            old(self)@.fresh(Label::Local(Local::BcdHundreds, addr)),
            old(self)@.fresh(Label::Local(Local::BcdTens, addr)),
            old(self)@.fresh(Label::Local(Local::BcdTensLoop, addr)),
            old(self)@.fresh(Label::Local(Local::BcdOnes, addr)),
        ensures
            final(self).wf(),
            r is Ok,
            final(self)@ == op_bcd(old(self)@, addr, x),
    {
        proof {
            reveal(op_bcd);
        }
        self.ld_a_mem(CHIP8_V0 + x as u16);
        // Get I address
        self.ld_hl_nn(CHIP8_I);
        self.ld_e_hl();
        self.inc_hl();
        self.ld_d_hl();
        // Add RAM base
        self.ld_hl_nn(CHIP8_RAM - 0x200);
        self.add_hl_de();
        // Store hundreds
        self.ld_b_n(0);
        self.label(Label::Local(Local::BcdHundreds, addr))?;
        self.cp_n(100);
        self.jr_c(Label::Local(Local::BcdTens, addr));
        self.sub_n(100);
        self.inc_b();
        self.jr_label(Label::Local(Local::BcdHundreds, addr));
        self.label(Label::Local(Local::BcdTens, addr))?;
        self.push_af();
        self.ld_a_b();
        self.ld_hl_a();
        self.inc_hl();
        self.pop_af();
        // Store tens
        self.ld_b_n(0);
        self.label(Label::Local(Local::BcdTensLoop, addr))?;
        self.cp_n(10);
        self.jr_c(Label::Local(Local::BcdOnes, addr));
        self.sub_n(10);
        self.inc_b();
        self.jr_label(Label::Local(Local::BcdTensLoop, addr));
        self.label(Label::Local(Local::BcdOnes, addr))?;
        self.push_af();
        self.ld_a_b();
        self.ld_hl_a();
        self.inc_hl();
        self.pop_af();
        // Store ones
        self.ld_hl_a();
        Ok(())
    }

    /// Emit [`op_store`].
    pub(crate) fn compile_store(&mut self, addr: u16, x: u8) -> (r: Result<(), CompileError>)
        requires
            old(self).wf(),
            x < 16,
            old(self)@.fresh(Label::Local(Local::StoreRegs, addr)),
        ensures
            final(self).wf(),
            r is Ok,
            final(self)@ == op_store(old(self)@, addr, x),
    {
        proof {
            reveal(op_store);
        }
        // Get I
        self.ld_hl_nn(CHIP8_I);
        self.ld_e_hl();
        self.inc_hl();
        self.ld_d_hl();
        self.ld_hl_nn(CHIP8_RAM - 0x200);
        self.add_hl_de();
        self.ex_de_hl();
        self.ld_hl_nn(CHIP8_V0);
        self.ld_b_n(x + 1);
        self.label(Label::Local(Local::StoreRegs, addr))?;
        self.ld_a_hl();
        self.ld_de_a();
        self.inc_hl();
        self.inc_de();
        self.dec_b();
        self.jr_nz(Label::Local(Local::StoreRegs, addr));
        Ok(())
    }

    /// Emit [`op_load`].
    pub(crate) fn compile_load(&mut self, addr: u16, x: u8) -> (r: Result<(), CompileError>)
        requires
            old(self).wf(),
            x < 16,
            old(self)@.fresh(Label::Local(Local::LoadRegs, addr)),
        ensures
            final(self).wf(),
            r is Ok,
            final(self)@ == op_load(old(self)@, addr, x),
    {
        proof {
            reveal(op_load);
        }
        // Get I
        self.ld_hl_nn(CHIP8_I);
        self.ld_e_hl();
        self.inc_hl();
        self.ld_d_hl();
        self.ld_hl_nn(CHIP8_RAM - 0x200);
        self.add_hl_de();
        self.ld_de_nn(CHIP8_V0);
        self.ld_b_n(x + 1);
        self.label(Label::Local(Local::LoadRegs, addr))?;
        self.ld_a_hl();
        self.ld_de_a();
        self.inc_hl();
        self.inc_de();
        self.dec_b();
        self.jr_nz(Label::Local(Local::LoadRegs, addr));
        Ok(())
    }

    /// Emit the translation of one instruction.
    ///
    /// Fails on a `JP` or `CALL` whose target holds no scanned instruction,
    /// and on nothing else.
    pub(crate) fn compile_instruction(&mut self, inst: &Instruction) -> (r: Result<
        (),
        CompileError,
    >)
        requires
            old(self).wf(),
            forall|k: Local| old(self)@.fresh(Label::Local(k, inst.addr)),
        ensures
            final(self).wf(),
            match r {
                Ok(()) => {
                    &&& !bad_branch(old(self)@.scanned, *inst)
                    &&& final(self)@ == translate(old(self)@, *inst)
                },
                Err(e) => {
                    &&& bad_branch(old(self)@.scanned, *inst)
                    &&& e == CompileError::UnknownBranchTarget(inst.spec_nnn())
                },
            },
    {
        let (n0, n1, n2, n3) = inst.nibbles();
        let x = inst.x();
        let y = inst.y();
        let n = inst.n();
        let nn = inst.nn();
        let nnn = inst.nnn();
        let addr = inst.addr;
        if n0 == 0x0 && n1 == 0x0 && n2 == 0xE && n3 == 0x0 {
            self.compile_cls();
        } else if n0 == 0x0 && n1 == 0x0 && n2 == 0xE && n3 == 0xE {
            self.compile_ret();
        } else if n0 == 0x0 {
            // Ignored.
        } else if n0 == 0x1 {
            if self.chip8_label(nnn).is_none() {
                return Err(CompileError::UnknownBranchTarget(nnn));
            }
            self.compile_jp(nnn);
        } else if n0 == 0x2 {
            if self.chip8_label(nnn).is_none() {
                return Err(CompileError::UnknownBranchTarget(nnn));
            }
            self.compile_call(addr, nnn);
        } else if n0 == 0x3 {
            self.compile_se_imm(addr, x, nn);
        } else if n0 == 0x4 {
            self.compile_sne_imm(addr, x, nn);
        } else if n0 == 0x5 && n3 == 0x0 {
            self.compile_se_reg(addr, x, y);
        } else if n0 == 0x6 {
            self.compile_ld_imm(x, nn);
        } else if n0 == 0x7 {
            self.compile_add_imm(x, nn);
        } else if n0 == 0x8 && n3 == 0x0 {
            self.compile_ld_reg(x, y);
        } else if n0 == 0x8 && n3 == 0x1 {
            self.compile_or_reg(x, y);
        } else if n0 == 0x8 && n3 == 0x2 {
            self.compile_and_reg(x, y);
        } else if n0 == 0x8 && n3 == 0x3 {
            self.compile_xor_reg(x, y);
        } else if n0 == 0x8 && n3 == 0x4 {
            self.compile_add_reg(x, y);
        } else if n0 == 0x8 && n3 == 0x5 {
            self.compile_sub_reg(addr, x, y)?;
        } else if n0 == 0x8 && n3 == 0x6 {
            self.compile_shr(x);
        } else if n0 == 0x8 && n3 == 0x7 {
            self.compile_subn_reg(addr, x, y)?;
        } else if n0 == 0x8 && n3 == 0xE {
            self.compile_shl(x);
        } else if n0 == 0x9 && n3 == 0x0 {
            self.compile_sne_reg(addr, x, y);
        } else if n0 == 0xA {
            self.compile_ld_i(nnn);
        } else if n0 == 0xB {
            self.compile_jp_v0(nnn);
        } else if n0 == 0xC {
            self.compile_rnd(x, nn);
        } else if n0 == 0xD {
            self.compile_drw(addr, x, y, n)?;
        } else if n0 == 0xE && n2 == 0x9 && n3 == 0xE {
            self.compile_skp(addr, x);
        } else if n0 == 0xE && n2 == 0xA && n3 == 0x1 {
            self.compile_sknp(addr, x);
        } else if n0 == 0xF && n2 == 0x0 && n3 == 0x7 {
            self.compile_ld_vx_dt(x);
        } else if n0 == 0xF && n2 == 0x0 && n3 == 0xA {
            self.compile_ld_vx_k(x);
        } else if n0 == 0xF && n2 == 0x1 && n3 == 0x5 {
            self.compile_ld_dt_vx(x);
        } else if n0 == 0xF && n2 == 0x1 && n3 == 0x8 {
            self.compile_ld_st_vx(x);
        } else if n0 == 0xF && n2 == 0x1 && n3 == 0xE {
            self.compile_add_i(x);
        } else if n0 == 0xF && n2 == 0x2 && n3 == 0x9 {
            self.compile_ld_f(x);
        } else if n0 == 0xF && n2 == 0x3 && n3 == 0x3 {
            self.compile_bcd(addr, x)?;
        } else if n0 == 0xF && n2 == 0x5 && n3 == 0x5 {
            self.compile_store(addr, x)?;
        } else if n0 == 0xF && n2 == 0x6 && n3 == 0x5 {
            self.compile_load(addr, x)?;
        } else {
            // An unknown opcode: nothing is emitted.
        }
        Ok(())
    }
}

} // verus!
