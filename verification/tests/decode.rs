use kz80_chip8::chip8::{parse, Instruction};

#[test]
fn new_keeps_opcode_and_address() {
    let inst = Instruction::new(0xA2F0, 0x204);
    assert_eq!(inst.opcode, 0xA2F0);
    assert_eq!(inst.addr, 0x204);
}

#[test]
fn nibbles_split_the_opcode() {
    let inst = Instruction::new(0xD12F, 0x200);
    assert_eq!(inst.nibbles(), (0xD, 0x1, 0x2, 0xF));
    assert_eq!(inst.class(), 0xD);
    assert_eq!(inst.x(), 1);
    assert_eq!(inst.y(), 2);
    assert_eq!(inst.n(), 0xF);
    assert_eq!(inst.nn(), 0x2F);
    assert_eq!(inst.nnn(), 0x12F);
}

#[test]
fn nibbles_of_the_extreme_opcodes() {
    assert_eq!(Instruction::new(0x0000, 0x200).nibbles(), (0, 0, 0, 0));
    assert_eq!(Instruction::new(0xFFFF, 0x200).nibbles(), (0xF, 0xF, 0xF, 0xF));
    assert_eq!(Instruction::new(0xFFFF, 0x200).nn(), 0xFF);
    assert_eq!(Instruction::new(0xFFFF, 0x200).nnn(), 0xFFF);
    assert_eq!(Instruction::new(0x8000, 0x200).nibbles(), (8, 0, 0, 0));
}

#[test]
fn nibbles_recompose_to_every_opcode() {
    for op in 0..=0xFFFFu32 {
        let op = op as u16;
        let (a, b, c, d) = Instruction::new(op, 0x200).nibbles();
        assert!(a < 16 && b < 16 && c < 16 && d < 16);
        let back = ((a as u16) << 12) | ((b as u16) << 8) | ((c as u16) << 4) | (d as u16);
        assert_eq!(back, op);
    }
}

#[test]
fn every_nibble_tuple_is_the_decoding_of_its_opcode() {
    for a in 0..16u16 {
        for b in 0..16u16 {
            for c in 0..16u16 {
                for d in 0..16u16 {
                    let op = (a << 12) | (b << 8) | (c << 4) | d;
                    let got = Instruction::new(op, 0x200).nibbles();
                    assert_eq!(got, (a as u8, b as u8, c as u8, d as u8));
                }
            }
        }
    }
}

#[test]
fn parse_reads_words_big_endian() {
    let insts = parse(&[0x60, 0x05, 0xA2, 0xF0]);
    assert_eq!(insts.len(), 2);
    assert_eq!(insts[0].opcode, 0x6005);
    assert_eq!(insts[1].opcode, 0xA2F0);
}

#[test]
fn parse_tags_addresses_from_0x200_in_steps_of_two() {
    let insts = parse(&[0x60, 0x05, 0x70, 0x03, 0x61, 0x00, 0x00, 0xE0]);
    let addrs: Vec<u16> = insts.iter().map(|i| i.addr).collect();
    assert_eq!(addrs, vec![0x200, 0x202, 0x204, 0x206]);
}

#[test]
fn parse_of_an_empty_rom_is_empty() {
    assert!(parse(&[]).is_empty());
}

#[test]
fn parse_of_a_single_byte_is_empty() {
    assert!(parse(&[0x12]).is_empty());
}

#[test]
fn parse_ignores_a_last_odd_byte() {
    let insts = parse(&[0x60, 0x05, 0x70]);
    assert_eq!(insts.len(), 1);
    assert_eq!(insts[0].opcode, 0x6005);
    assert_eq!(insts[0].addr, 0x200);
}

#[test]
fn parse_stops_at_a_self_jump_at_the_start() {
    let insts = parse(&[0x12, 0x00]);
    assert_eq!(insts.len(), 1);
    assert_eq!(insts[0].opcode, 0x1200);
    assert_eq!(insts[0].addr, 0x200);
}

#[test]
fn parse_treats_what_follows_the_self_jump_as_data() {
    let insts = parse(&[0x60, 0x05, 0x12, 0x02, 0xF0, 0x90, 0x90, 0x90, 0xF0]);
    assert_eq!(insts.len(), 2);
    assert_eq!(insts[1].opcode, 0x1202);
    assert_eq!(insts[1].addr, 0x202);
}

#[test]
fn parse_goes_on_after_a_jump_elsewhere() {
    // JP 0x204 at 0x200 is no self-jump; JP 0x204 at 0x204 is.
    let insts = parse(&[0x12, 0x04, 0x60, 0x01, 0x12, 0x04, 0x60, 0x02]);
    assert_eq!(insts.len(), 3);
    assert_eq!(insts[2].addr, 0x204);
}

#[test]
fn parse_goes_on_after_a_call_to_itself() {
    // 2200 at 0x200 has the target of a self-jump but is a CALL.
    let insts = parse(&[0x22, 0x00, 0x60, 0x01]);
    assert_eq!(insts.len(), 2);
}

#[test]
fn parse_of_the_longest_rom_keeps_addresses_in_16_bits() {
    let rom = vec![0u8; 0xFE00];
    let insts = parse(&rom);
    assert_eq!(insts.len(), 0x7F00);
    assert_eq!(insts[0x7EFF].addr, 0xFFFE);
}
