use kz80_chip8::chip8::{disasm_instruction, disasm_line, disassemble, parse, Instruction};

fn text(opcode: u16) -> String {
    disasm_instruction(&Instruction::new(opcode, 0x200))
}

#[test]
fn trivial_halt_disassembles_to_one_line() {
    let lines = disassemble(&[0x12, 0x00]);
    assert_eq!(lines, vec!["200: 1200  JP   200".to_string()]);
}

#[test]
fn mnemonics_without_operands() {
    assert_eq!(text(0x00E0), "CLS");
    assert_eq!(text(0x00EE), "RET");
}

#[test]
fn mnemonics_with_an_address() {
    assert_eq!(text(0x0123), "SYS  123");
    assert_eq!(text(0x00E1), "SYS  0E1");
    assert_eq!(text(0x1ABC), "JP   ABC");
    assert_eq!(text(0x2F0E), "CALL F0E");
    assert_eq!(text(0xA00F), "LD   I, 00F");
    assert_eq!(text(0xB300), "JP   V0, 300");
}

#[test]
fn mnemonics_with_a_register_and_a_byte() {
    assert_eq!(text(0x3A07), "SE   VA, 07");
    assert_eq!(text(0x41FF), "SNE  V1, FF");
    assert_eq!(text(0x6005), "LD   V0, 05");
    assert_eq!(text(0x7F03), "ADD  VF, 03");
    assert_eq!(text(0xC90F), "RND  V9, 0F");
}

#[test]
fn mnemonics_with_two_registers() {
    assert_eq!(text(0x5120), "SE   V1, V2");
    assert_eq!(text(0x8AB0), "LD   VA, VB");
    assert_eq!(text(0x8AB1), "OR   VA, VB");
    assert_eq!(text(0x8AB2), "AND  VA, VB");
    assert_eq!(text(0x8AB3), "XOR  VA, VB");
    assert_eq!(text(0x8AB4), "ADD  VA, VB");
    assert_eq!(text(0x8AB5), "SUB  VA, VB");
    assert_eq!(text(0x8AB6), "SHR  VA");
    assert_eq!(text(0x8AB7), "SUBN VA, VB");
    assert_eq!(text(0x8ABE), "SHL  VA");
    assert_eq!(text(0x9CD0), "SNE  VC, VD");
}

#[test]
fn draw_prints_its_height_in_decimal() {
    assert_eq!(text(0xD015), "DRW  V0, V1, 5");
    assert_eq!(text(0xDABF), "DRW  VA, VB, 15");
    assert_eq!(text(0xD120), "DRW  V1, V2, 0");
    assert_eq!(text(0xD12A), "DRW  V1, V2, 10");
    assert_eq!(text(0xD129), "DRW  V1, V2, 9");
}

#[test]
fn mnemonics_of_keys_timers_and_memory() {
    assert_eq!(text(0xE39E), "SKP  V3");
    assert_eq!(text(0xE3A1), "SKNP V3");
    assert_eq!(text(0xF507), "LD   V5, DT");
    assert_eq!(text(0xF50A), "LD   V5, K");
    assert_eq!(text(0xF515), "LD   DT, V5");
    assert_eq!(text(0xF518), "LD   ST, V5");
    assert_eq!(text(0xF51E), "ADD  I, V5");
    assert_eq!(text(0xF529), "LD   F, V5");
    assert_eq!(text(0xF533), "LD   B, V5");
    assert_eq!(text(0xF555), "LD   [I], V5");
    assert_eq!(text(0xF565), "LD   V5, [I]");
}

#[test]
fn unknown_opcodes_print_as_question_marks() {
    assert_eq!(text(0x5001), "??? 5001");
    assert_eq!(text(0x8008), "??? 8008");
    assert_eq!(text(0x9121), "??? 9121");
    assert_eq!(text(0xE000), "??? E000");
    assert_eq!(text(0xF0FF), "??? F0FF");
    assert_eq!(text(0xE09F), "??? E09F");
}

#[test]
fn every_opcode_has_a_mnemonic_that_matches_its_pattern() {
    for op in 0..=0xFFFFu32 {
        let op = op as u16;
        let t = text(op);
        assert!(!t.is_empty());
        assert!(t.is_ascii());
        let known = !t.starts_with("??? ");
        let (c, y, n) = (op >> 12, (op >> 4) & 0xF, op & 0xF);
        let expected = match c {
            0x5 | 0x9 => n == 0,
            0x8 => n <= 7 || n == 0xE,
            0xE => (y, n) == (0x9, 0xE) || (y, n) == (0xA, 0x1),
            0xF => matches!(
                (y, n),
                (0, 7) | (0, 0xA) | (1, 5) | (1, 8) | (1, 0xE) | (2, 9) | (3, 3) | (5, 5) | (6, 5)
            ),
            _ => true,
        };
        assert_eq!(known, expected, "opcode {:04X}", op);
    }
}

#[test]
fn listing_line_has_address_opcode_and_mnemonic() {
    assert_eq!(disasm_line(&Instruction::new(0x6005, 0x200)), "200: 6005  LD   V0, 05");
    assert_eq!(disasm_line(&Instruction::new(0x00E0, 0xABC)), "ABC: 00E0  CLS");
    assert_eq!(disasm_line(&Instruction::new(0x5001, 0x20E)), "20E: 5001  ??? 5001");
}

#[test]
fn listing_line_of_an_address_above_three_digits() {
    assert_eq!(disasm_line(&Instruction::new(0x00EE, 0x1000)), "1000: 00EE  RET");
    assert_eq!(disasm_line(&Instruction::new(0x00EE, 0xFFFE)), "FFFE: 00EE  RET");
}

#[test]
fn disassemble_lists_the_stream_in_order() {
    let lines = disassemble(&[0x60, 0x05, 0x70, 0x03, 0x12, 0x04, 0xFF, 0xFF]);
    assert_eq!(
        lines,
        vec![
            "200: 6005  LD   V0, 05".to_string(),
            "202: 7003  ADD  V0, 03".to_string(),
            "204: 1204  JP   204".to_string(),
        ]
    );
}

#[test]
fn disassemble_has_one_line_for_each_parsed_instruction() {
    let rom = [0x22, 0x06, 0x12, 0x00, 0x00, 0x00, 0x60, 0x42, 0x00, 0xEE, 0x01];
    let insts = parse(&rom);
    let lines = disassemble(&rom);
    assert_eq!(lines.len(), insts.len());
    for (line, inst) in lines.iter().zip(insts.iter()) {
        assert_eq!(*line, disasm_line(inst));
        assert!(line.ends_with(&disasm_instruction(inst)));
    }
}

#[test]
fn disassembling_twice_gives_the_same_listing() {
    let rom = [0x60, 0xEA, 0xA3, 0x00, 0xF0, 0x33, 0xD0, 0x15, 0x50, 0x01, 0x12, 0x0A];
    assert_eq!(disassemble(&rom), disassemble(&rom));
}

#[test]
fn disassemble_of_an_empty_rom_is_empty() {
    assert!(disassemble(&[]).is_empty());
}
