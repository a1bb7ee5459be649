use kz80_chip8::codegen::Compiler;
use kz80_chip8::label::{Label, Local, Routine};

/// The translation of the first instruction of `rom`, with the compiler
/// that made it.
fn first(rom: &[u8]) -> (Vec<u8>, Compiler) {
    let mut compiler = Compiler::new();
    let image = compiler.compile(rom).expect("the ROM compiles");
    let start = compiler.lookup(Label::Chip8(0x200)).unwrap();
    let end = compiler.lookup(Label::Chip8(0x202)).unwrap();
    (image[start..end].to_vec(), compiler)
}

fn word(compiler: &Compiler, label: Label) -> [u8; 2] {
    let at = compiler.lookup(label).expect("the label is defined");
    [(at & 0xFF) as u8, (at >> 8) as u8]
}

fn routine(compiler: &Compiler, r: Routine) -> [u8; 2] {
    word(compiler, Label::Routine(r))
}

#[test]
fn cls_calls_the_routine() {
    let (code, c) = first(&[0x00, 0xE0, 0x12, 0x02]);
    let [lo, hi] = routine(&c, Routine::Cls);
    assert_eq!(code, vec![0xCD, lo, hi]);
}

#[test]
fn ret_pops_the_chip8_stack() {
    let (code, _) = first(&[0x00, 0xEE, 0x12, 0x02]);
    assert_eq!(
        code,
        vec![
            0x21, 0x12, 0x80, // LD HL, CHIP8_SP
            0x7E, 0x3D, 0x77, // LD A,(HL) ; DEC A ; LD (HL),A
            0x6F, 0x26, 0x00, 0x29, // HL = 2 * SP
            0x11, 0x00, 0x81, 0x19, // + CHIP8_STACK
            0x5E, 0x23, 0x56, // DE = (HL)
            0xD5, 0xC9, // PUSH DE ; RET
        ]
    );
}

#[test]
fn jp_is_one_absolute_jump() {
    let (code, c) = first(&[0x12, 0x02, 0x12, 0x02]);
    let [lo, hi] = word(&c, Label::Chip8(0x202));
    assert_eq!(code, vec![0xC3, lo, hi]);
}

#[test]
fn call_stores_the_next_address_low_byte_first() {
    let rom = [0x22, 0x04, 0x60, 0x00, 0x12, 0x04];
    let (code, c) = first(&rom);
    let [lo, hi] = word(&c, Label::Chip8(0x204));
    assert_eq!(
        code,
        vec![
            0x21, 0x12, 0x80, 0x7E, 0x6F, 0x26, 0x00, 0x29, 0x11, 0x00, 0x81, 0x19, // slot
            0x3E, 0x02, 0x77, 0x23, 0x3E, 0x02, 0x77, // 0x0202
            0x21, 0x12, 0x80, 0x34, // SP += 1
            0xC3, lo, hi,
        ]
    );
}

#[test]
fn skips_branch_to_the_instruction_after_the_next() {
    let tail = [0x60, 0x00, 0x12, 0x04];
    for (op, expected) in [
        ([0x3A, 0x07], vec![0x3A, 0x0A, 0x80, 0xFE, 0x07, 0xCA]),
        ([0x4A, 0x07], vec![0x3A, 0x0A, 0x80, 0xFE, 0x07, 0xC2]),
        ([0x5A, 0xB0], vec![0x3A, 0x0A, 0x80, 0x21, 0x0B, 0x80, 0xBE, 0xCA]),
        ([0x9A, 0xB0], vec![0x3A, 0x0A, 0x80, 0x21, 0x0B, 0x80, 0xBE, 0xC2]),
    ] {
        let mut rom = op.to_vec();
        rom.extend_from_slice(&tail);
        let (code, c) = first(&rom);
        let mut expected = expected;
        expected.extend_from_slice(&word(&c, Label::Chip8(0x204)));
        assert_eq!(code, expected);
    }
}

#[test]
fn key_skips_poll_and_compare() {
    let tail = [0x60, 0x00, 0x12, 0x04];
    for (op, branch) in [([0xE3, 0x9E], 0xCA), ([0xE3, 0xA1], 0xC2)] {
        let mut rom = op.to_vec();
        rom.extend_from_slice(&tail);
        let (code, c) = first(&rom);
        let [klo, khi] = routine(&c, Routine::GetKey);
        let [lo, hi] = word(&c, Label::Chip8(0x204));
        assert_eq!(code, vec![0xCD, klo, khi, 0x21, 0x03, 0x80, 0xBE, branch, lo, hi]);
    }
}

#[test]
fn loads_and_adds_of_a_byte() {
    let (code, _) = first(&[0x6C, 0x2A, 0x12, 0x02]);
    assert_eq!(code, vec![0x3E, 0x2A, 0x32, 0x0C, 0x80]);
    let (code, _) = first(&[0x7C, 0x2A, 0x12, 0x02]);
    assert_eq!(code, vec![0x3A, 0x0C, 0x80, 0xC6, 0x2A, 0x32, 0x0C, 0x80]);
}

#[test]
fn register_moves_and_logic_encode_vx_and_vy() {
    let (code, _) = first(&[0x81, 0x20, 0x12, 0x02]);
    assert_eq!(code, vec![0x3A, 0x02, 0x80, 0x32, 0x01, 0x80]);
    for (n, op) in [(1u8, 0xB6u8), (2, 0xA6), (3, 0xAE)] {
        let (code, _) = first(&[0x81, 0x20 | n, 0x12, 0x02]);
        assert_eq!(code, vec![0x3A, 0x01, 0x80, 0x21, 0x02, 0x80, op, 0x32, 0x01, 0x80]);
    }
}

#[test]
fn add_of_registers_writes_the_carry_to_vf() {
    let (code, _) = first(&[0x81, 0x24, 0x12, 0x02]);
    assert_eq!(
        code,
        vec![
            0x3A, 0x01, 0x80, 0x21, 0x02, 0x80, 0x86, 0x32, 0x01, 0x80, // Vx += Vy
            0x3E, 0x00, 0xCE, 0x00, 0x32, 0x0F, 0x80, // VF = carry
        ]
    );
}

#[test]
fn subtractions_branch_over_the_borrow_case() {
    for (n, minuend, subtrahend) in [(5u8, 1u8, 2u8), (7, 2, 1)] {
        let (code, c) = first(&[0x81, 0x20 | n, 0x12, 0x02]);
        let [lo, hi] = word(&c, Label::Local(Local::NoBorrow, 0x200));
        assert_eq!(
            code,
            vec![
                0x3A, minuend, 0x80, 0x21, subtrahend, 0x80, 0x96, 0x32, 0x01, 0x80, //
                0x3E, 0x01, 0xD2, lo, hi, 0xAF, // VF = 1 unless borrow
                0x32, 0x0F, 0x80,
            ]
        );
        let start = c.lookup(Label::Chip8(0x200)).unwrap();
        assert_eq!(c.lookup(Label::Local(Local::NoBorrow, 0x200)), Some(start + 16));
    }
}

#[test]
fn shifts_write_the_lost_bit_to_vf() {
    for (n, shift) in [(0x6u8, 0x3Fu8), (0xE, 0x27)] {
        let (code, _) = first(&[0x81, 0x20 | n, 0x12, 0x02]);
        assert_eq!(
            code,
            vec![
                0x3A, 0x01, 0x80, 0xCB, shift, 0x32, 0x01, 0x80, //
                0x3E, 0x00, 0xCE, 0x00, 0x32, 0x0F, 0x80,
            ]
        );
    }
}

#[test]
fn ld_i_writes_both_bytes() {
    let (code, _) = first(&[0xA3, 0x45, 0x12, 0x02]);
    assert_eq!(code, vec![0x21, 0x45, 0x03, 0x11, 0x10, 0x80, 0x7D, 0x12, 0x13, 0x7C, 0x12]);
}

#[test]
fn jp_v0_pushes_the_sum_and_returns_to_it() {
    let (code, _) = first(&[0xB3, 0x45, 0x12, 0x02]);
    assert_eq!(
        code,
        vec![0x3A, 0x00, 0x80, 0x6F, 0x26, 0x00, 0x11, 0x45, 0x03, 0x19, 0xE5, 0xC9]
    );
}

#[test]
fn rnd_masks_what_the_generator_returns() {
    let (code, c) = first(&[0xC4, 0x3F, 0x12, 0x02]);
    let [lo, hi] = routine(&c, Routine::Rng);
    assert_eq!(code, vec![0xCD, lo, hi, 0xE6, 0x3F, 0x32, 0x04, 0x80]);
}

#[test]
fn drw_picks_font_or_rom_and_calls_the_sprite_routine() {
    let (code, c) = first(&[0xD1, 0x25, 0x12, 0x02]);
    let [nlo, nhi] = word(&c, Label::Local(Local::DrawNotFont, 0x200));
    let [hlo, hhi] = word(&c, Label::Local(Local::DrawHaveSprite, 0x200));
    let [rlo, rhi] = routine(&c, Routine::Chip8RomData);
    let [dlo, dhi] = routine(&c, Routine::DrawSprite);
    let [flo, fhi] = routine(&c, Routine::RefreshDisplay);
    assert_eq!(
        code,
        vec![
            0x3A, 0x02, 0x80, 0xE6, 0x1F, 0x6F, 0x26, 0x00, 0x29, 0x29, 0x29, // (Vy % 32) * 8
            0x3A, 0x01, 0x80, 0xE6, 0x3F, 0xCB, 0x3F, 0xCB, 0x3F, 0xCB, 0x3F, // (Vx % 64) / 8
            0x5F, 0x16, 0x00, 0x19, 0x11, 0x00, 0x82, 0x19, 0xE5, // + DISPLAY_BUF
            0x21, 0x10, 0x80, 0x5E, 0x23, 0x56, // DE = I
            0x7A, 0xB7, 0xC2, nlo, nhi, 0x7B, 0xFE, 0x50, 0xD2, nlo, nhi, // I < 0x50 ?
            0x21, 0x00, 0x83, 0x19, 0xC3, hlo, hhi, // FONT_DATA + I
            0x21, 0x00, 0x02, 0xEB, 0xB7, 0xED, 0x52, 0xEB, 0x21, rlo, rhi, 0x19, // ROM
            0xD1, 0x06, 0x05, 0xCD, dlo, dhi, 0x32, 0x0F, 0x80, 0xCD, flo, fhi,
        ]
    );
}

#[test]
fn timer_and_key_moves() {
    let (code, _) = first(&[0xF4, 0x07, 0x12, 0x02]);
    assert_eq!(code, vec![0x3A, 0x13, 0x80, 0x32, 0x04, 0x80]);
    let (code, _) = first(&[0xF4, 0x15, 0x12, 0x02]);
    assert_eq!(code, vec![0x3A, 0x04, 0x80, 0x32, 0x13, 0x80]);
    let (code, _) = first(&[0xF4, 0x18, 0x12, 0x02]);
    assert_eq!(code, vec![0x3A, 0x04, 0x80, 0x32, 0x14, 0x80]);
    let (code, c) = first(&[0xF4, 0x0A, 0x12, 0x02]);
    let [lo, hi] = routine(&c, Routine::WaitKey);
    assert_eq!(code, vec![0xCD, lo, hi, 0x32, 0x04, 0x80]);
}

#[test]
fn add_i_adds_vx_to_both_bytes_of_i() {
    let (code, _) = first(&[0xF4, 0x1E, 0x12, 0x02]);
    assert_eq!(
        code,
        vec![
            0x3A, 0x04, 0x80, 0x6F, 0x26, 0x00, // HL = Vx
            0x3A, 0x10, 0x80, 0x5F, 0x3A, 0x11, 0x80, 0x57, // DE = I
            0x19, 0x7D, 0x32, 0x10, 0x80, 0x7C, 0x32, 0x11, 0x80, // I = HL + DE
        ]
    );
}

#[test]
fn ld_f_multiplies_the_low_nibble_by_five() {
    let (code, _) = first(&[0xF4, 0x29, 0x12, 0x02]);
    assert_eq!(
        code,
        vec![
            0x3A, 0x04, 0x80, 0xE6, 0x0F, 0x6F, 0x26, 0x00, 0x29, 0x29, 0x5F, 0x16, 0x00, 0x19,
            0x11, 0x10, 0x80, 0x7D, 0x12, 0x13, 0x7C, 0x12,
        ]
    );
}

#[test]
fn bcd_counts_hundreds_and_tens() {
    let (code, c) = first(&[0xF4, 0x33, 0x12, 0x02]);
    let h = word(&c, Label::Local(Local::BcdHundreds, 0x200));
    let t = word(&c, Label::Local(Local::BcdTens, 0x200));
    let tl = word(&c, Label::Local(Local::BcdTensLoop, 0x200));
    let o = word(&c, Label::Local(Local::BcdOnes, 0x200));
    assert_eq!(
        code,
        vec![
            0x3A, 0x04, 0x80, 0x21, 0x10, 0x80, 0x5E, 0x23, 0x56, 0x21, 0x00, 0x82, 0x19, //
            0x06, 0x00, 0xFE, 100, 0xDA, t[0], t[1], 0xD6, 100, 0x04, 0xC3, h[0], h[1], //
            0xF5, 0x78, 0x77, 0x23, 0xF1, //
            0x06, 0x00, 0xFE, 10, 0xDA, o[0], o[1], 0xD6, 10, 0x04, 0xC3, tl[0], tl[1], //
            0xF5, 0x78, 0x77, 0x23, 0xF1, 0x77,
        ]
    );
}

#[test]
fn block_moves_count_x_plus_one_registers() {
    let (code, c) = first(&[0xF4, 0x55, 0x12, 0x02]);
    let [lo, hi] = word(&c, Label::Local(Local::StoreRegs, 0x200));
    assert_eq!(
        code,
        vec![
            0x21, 0x10, 0x80, 0x5E, 0x23, 0x56, 0x21, 0x00, 0x82, 0x19, 0xEB, // DE = RAM + I
            0x21, 0x00, 0x80, 0x06, 0x05, // HL = V0, B = 5
            0x7E, 0x12, 0x23, 0x13, 0x05, 0xC2, lo, hi,
        ]
    );
    let (code, c) = first(&[0xFF, 0x65, 0x12, 0x02]);
    let [lo, hi] = word(&c, Label::Local(Local::LoadRegs, 0x200));
    assert_eq!(
        code,
        vec![
            0x21, 0x10, 0x80, 0x5E, 0x23, 0x56, 0x21, 0x00, 0x82, 0x19, // HL = RAM + I
            0x11, 0x00, 0x80, 0x06, 0x10, // DE = V0, B = 16
            0x7E, 0x12, 0x23, 0x13, 0x05, 0xC2, lo, hi,
        ]
    );
}

#[test]
fn runtime_routines_are_laid_out_in_a_fixed_order() {
    let mut compiler = Compiler::new();
    compiler.compile(&[0x12, 0x00]).unwrap();
    let order = [
        Routine::Init,
        Routine::InitClear,
        Routine::AciaInit,
        Routine::PrintChar,
        Routine::PrintWait,
        Routine::PrintBanner,
        Routine::PrintStrLoop,
        Routine::BannerStr,
        Routine::Cls,
        Routine::ClsLoop,
        Routine::CopyFont,
        Routine::CopyFontLoop,
        Routine::FontRom,
        Routine::Rng,
        Routine::GetKey,
        Routine::GetKeyAlpha,
        Routine::GetKeyUpper,
        Routine::GetKeyNone,
        Routine::WaitKey,
        Routine::DrawSprite,
        Routine::DrawRow,
        Routine::RefreshDisplay,
        Routine::RefreshRow,
        Routine::RefreshByte,
        Routine::RefreshBit,
        Routine::RefreshSpace,
        Routine::RefreshOut,
        Routine::Main,
        Routine::Halt,
        Routine::Chip8RomData,
    ];
    let mut last = 0;
    for (k, r) in order.iter().enumerate() {
        assert_eq!(r.index(), k as u64);
        let at = compiler.lookup(Label::Routine(*r)).expect("every routine is defined");
        assert!(at > last);
        last = at;
    }
}

#[test]
fn banner_and_font_are_in_the_image() {
    let mut compiler = Compiler::new();
    let image = compiler.compile(&[0x12, 0x00]).unwrap();
    let banner = compiler.lookup(Label::Routine(Routine::BannerStr)).unwrap();
    assert_eq!(&image[banner..banner + 16], b"CHIP-8 on Z80\r\n\0");
    let font = compiler.lookup(Label::Routine(Routine::FontRom)).unwrap();
    assert_eq!(&image[font..font + 5], &[0xF0, 0x90, 0x90, 0x90, 0xF0]);
    assert_eq!(&image[font + 75..font + 80], &[0xF0, 0x80, 0xF0, 0x80, 0x80]);
    assert_eq!(compiler.lookup(Label::Routine(Routine::Rng)), Some(font + 80));
}
