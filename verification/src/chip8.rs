//! CHIP-8 opcode decoder, ROM scanner and disassembler.

use vstd::prelude::*;
use vstd::string::*;

verus! {

/// Address at which a CHIP-8 program is loaded.
pub const ROM_BASE: u16 = 0x200;

/// Longest ROM whose every byte has a 16-bit CHIP-8 address.
pub const MAX_ROM_LEN: usize = 0xFE00;

/// One decoded CHIP-8 instruction: the big-endian opcode word and the CHIP-8
/// address it was fetched from.
#[derive(Debug, Clone, Copy, PartialEq, Eq, Structural)]
pub struct Instruction {
    pub opcode: u16,
    pub addr: u16,
}

/// The opcode whose four nibbles, most significant first, are `a`, `b`, `c`
/// and `d`.
pub open spec fn compose(a: u8, b: u8, c: u8, d: u8) -> int {
    a * 4096 + b * 256 + c * 16 + d
}

impl Instruction {
    /// Bits 12 to 15 of the opcode.
    pub open spec fn spec_class(&self) -> u8 {
        (self.opcode / 4096) as u8
    }

    /// Bits 8 to 11 of the opcode.
    pub open spec fn spec_x(&self) -> u8 {
        ((self.opcode / 256) % 16) as u8
    }

    /// Bits 4 to 7 of the opcode.
    pub open spec fn spec_y(&self) -> u8 {
        ((self.opcode / 16) % 16) as u8
    }

    /// Bits 0 to 3 of the opcode.
    pub open spec fn spec_n(&self) -> u8 {
        (self.opcode % 16) as u8
    }

    /// Bits 0 to 7 of the opcode.
    pub open spec fn spec_nn(&self) -> u8 {
        (self.opcode % 256) as u8
    }

    /// Bits 0 to 11 of the opcode.
    pub open spec fn spec_nnn(&self) -> u16 {
        self.opcode % 4096
    }

    /// The four nibbles of the opcode, most significant first.
    pub open spec fn spec_nibbles(&self) -> (u8, u8, u8, u8) {
        (self.spec_class(), self.spec_x(), self.spec_y(), self.spec_n())
    }

    /// A `JP` whose target is its own address: the end-of-code marker.
    pub open spec fn is_self_jump(&self) -> bool {
        self.spec_class() == 1 && self.spec_nnn() == self.addr
    }

    pub fn new(opcode: u16, addr: u16) -> (r: Self)
        ensures
            r.opcode == opcode,
            r.addr == addr,
    {
        Self { opcode, addr }
    }

    /// Extract the four nibbles of the opcode.
    pub fn nibbles(&self) -> (r: (u8, u8, u8, u8))
        ensures
            r == self.spec_nibbles(),
            r.0 < 16 && r.1 < 16 && r.2 < 16 && r.3 < 16,
            self.opcode == compose(r.0, r.1, r.2, r.3),
    {
        let op: u16 = self.opcode;
        assert((op >> 12) & 0xF == op / 4096) by (bit_vector);
        assert((op >> 8) & 0xF == (op / 256) % 16) by (bit_vector);
        assert((op >> 4) & 0xF == (op / 16) % 16) by (bit_vector);
        assert(op & 0xF == op % 16) by (bit_vector);
        assert(op == (op / 4096) * 4096 + ((op / 256) % 16) * 256 + ((op / 16) % 16) * 16 + op % 16)
            by (bit_vector);
        let n0 = ((op >> 12) & 0xF) as u8;
        let n1 = ((op >> 8) & 0xF) as u8;
        let n2 = ((op >> 4) & 0xF) as u8;
        let n3 = (op & 0xF) as u8;
        (n0, n1, n2, n3)
    }

    /// The opcode class (first nibble).
    pub fn class(&self) -> (r: u8)
        ensures
            r == self.spec_class(),
            r < 16,
    {
        let op: u16 = self.opcode;
        assert(op >> 12 == op / 4096) by (bit_vector);
        (op >> 12) as u8
    }

    /// Get X register (second nibble).
    pub fn x(&self) -> (r: u8)
        ensures
            r == self.spec_x(),
            r < 16,
    {
        let op: u16 = self.opcode;
        assert((op >> 8) & 0xF == (op / 256) % 16) by (bit_vector);
        ((op >> 8) & 0xF) as u8
    }

    /// Get Y register (third nibble).
    pub fn y(&self) -> (r: u8)
        ensures
            r == self.spec_y(),
            r < 16,
    {
        let op: u16 = self.opcode;
        assert((op >> 4) & 0xF == (op / 16) % 16) by (bit_vector);
        ((op >> 4) & 0xF) as u8
    }

    /// Get N (last nibble).
    pub fn n(&self) -> (r: u8)
        ensures
            r == self.spec_n(),
            r < 16,
    {
        let op: u16 = self.opcode;
        assert(op & 0xF == op % 16) by (bit_vector);
        (op & 0xF) as u8
    }

    /// Get NN (last byte).
    pub fn nn(&self) -> (r: u8)
        ensures
            r == self.spec_nn(),
    {
        let op: u16 = self.opcode;
        assert(op & 0xFF == op % 256) by (bit_vector);
        (op & 0xFF) as u8
    }

    /// Get NNN (last 12 bits: an address).
    pub fn nnn(&self) -> (r: u16)
        ensures
            r == self.spec_nnn(),
            r < 4096,
    {
        let op: u16 = self.opcode;
        assert(op & 0xFFF == op % 4096) by (bit_vector);
        op & 0xFFF
    }
}

/// Decoding loses nothing: two opcodes with the same four nibbles are the
/// same opcode.
pub proof fn lemma_nibbles_injective(a: Instruction, b: Instruction)
    requires
        a.spec_nibbles() == b.spec_nibbles(),
    ensures
        a.opcode == b.opcode,
{
    let (p, q) = (a.opcode, b.opcode);
    assert(p / 4096 == q / 4096 && (p / 256) % 16 == (q / 256) % 16 && (p / 16) % 16 == (q / 16)
        % 16 && p % 16 == q % 16 ==> p == q) by (bit_vector);
}

/// Every four nibbles are the decoding of exactly the opcode they compose,
/// which is `(a << 12) | (b << 8) | (c << 4) | d`.
pub proof fn lemma_nibbles_surjective(a: u8, b: u8, c: u8, d: u8, addr: u16)
    requires
        a < 16 && b < 16 && c < 16 && d < 16,
    ensures
        0 <= compose(a, b, c, d) < 0x10000,
        compose(a, b, c, d) == ((a as u16) << 12 | (b as u16) << 8 | (c as u16) << 4 | (d as u16)),
        (Instruction { opcode: compose(a, b, c, d) as u16, addr }).spec_nibbles() == (a, b, c, d),
{
    let (a16, b16, c16, d16) = (a as u16, b as u16, c as u16, d as u16);
    let op: u16 = (a16 * 4096 + b16 * 256 + c16 * 16 + d16) as u16;
    assert(op == compose(a, b, c, d));
    assert(a16 < 16 && b16 < 16 && c16 < 16 && d16 < 16 && op == a16 * 4096 + b16 * 256 + c16 * 16
        + d16 ==> op == (a16 << 12 | b16 << 8 | c16 << 4 | d16) && op / 4096 == a16 && (op / 256)
        % 16 == b16 && (op / 16) % 16 == c16 && op % 16 == d16) by (bit_vector);
}


/// The big-endian word formed by bytes `2k` and `2k + 1` of the ROM.
pub open spec fn word_at(rom: Seq<u8>, k: int) -> u16 {
    (rom[2 * k] * 256 + rom[2 * k + 1]) as u16
}

/// The `k`-th instruction slot of the ROM: its word, tagged with the address
/// `0x200 + 2k`.
pub open spec fn inst_at(rom: Seq<u8>, k: int) -> Instruction {
    Instruction { opcode: word_at(rom, k), addr: (ROM_BASE + 2 * k) as u16 }
}

/// Number of instructions that a scan starting at slot `k` runs through
/// before it stops, counted from slot 0: the scan stops after the first
/// self-jump, or where fewer than two bytes are left.
pub open spec fn scan_end(rom: Seq<u8>, k: int) -> int
    decreases rom.len() - 2 * k,
{
    if k < 0 || 2 * k + 1 >= rom.len() {
        k
    } else if inst_at(rom, k).is_self_jump() {
        k + 1
    } else {
        scan_end(rom, k + 1)
    }
}

/// The instruction stream of a ROM: the slots from 0 up to the first
/// self-jump (included) or the end of the ROM, in address order.
pub open spec fn scan(rom: Seq<u8>) -> Seq<Instruction> {
    Seq::new(scan_end(rom, 0) as nat, |k: int| inst_at(rom, k))
}

/// The scan started at slot `k` ends between `k` and the last whole slot, and
/// no slot that it passes over is a self-jump.
pub proof fn lemma_scan_end(rom: Seq<u8>, k: int)
    requires
        0 <= k,
        2 * k <= rom.len(),
    ensures
        k <= scan_end(rom, k),
        2 * scan_end(rom, k) <= rom.len(),
        forall|j: int|
            k <= j < scan_end(rom, k) - 1 ==> !(#[trigger] inst_at(rom, j)).is_self_jump(),
        2 * scan_end(rom, k) + 1 < rom.len() ==> scan_end(rom, k) > k && inst_at(
            rom,
            scan_end(rom, k) - 1,
        ).is_self_jump(),
    decreases rom.len() - 2 * k,
{
    if 2 * k + 1 >= rom.len() {
    } else if inst_at(rom, k).is_self_jump() {
    } else {
        lemma_scan_end(rom, k + 1);
    }
}

/// What holds of every instruction stream: it has at most one entry for each
/// whole word of the ROM; its entries are the ROM's words in order, each at
/// an even address inside the ROM, from `0x200` on without gaps; only its
/// last entry can be a self-jump, and it stops short of the ROM's end only
/// after one.
pub proof fn lemma_scan_shape(rom: Seq<u8>)
    requires
        rom.len() <= MAX_ROM_LEN,
    ensures
        2 * scan(rom).len() <= rom.len(),
        forall|k: int|
            0 <= k < scan(rom).len() ==> {
                let inst = #[trigger] scan(rom)[k];
                &&& inst == inst_at(rom, k)
                &&& inst.addr == ROM_BASE + 2 * k
                &&& inst.addr % 2 == 0
                &&& ROM_BASE <= inst.addr < ROM_BASE + rom.len()
            },
        forall|k: int|
            0 <= k < scan(rom).len() - 1 ==> !(#[trigger] inst_at(rom, k)).is_self_jump(),
        2 * scan(rom).len() + 1 < rom.len() ==> scan(rom).len() > 0 && scan(
            rom,
        ).last().is_self_jump(),
{
    lemma_scan_end(rom, 0);
}

/// Parse a ROM into its instruction stream.
///
/// Reads the ROM two bytes at a time, big-endian, and stops after the first
/// jump to itself: what follows is data. A last odd byte is ignored.
pub fn parse(rom: &[u8]) -> (instructions: Vec<Instruction>)
    requires
        rom@.len() <= MAX_ROM_LEN,
    ensures
        instructions@ == scan(rom@),
{
    let mut instructions: Vec<Instruction> = Vec::new();
    let mut i: usize = 0;
    let mut halted = false;
    while !halted && i + 1 < rom.len()
        invariant
            rom@.len() <= MAX_ROM_LEN,
            i % 2 == 0,
            i <= rom@.len(),
            instructions@.len() == i / 2,
            forall|k: int| 0 <= k < instructions@.len() ==> instructions@[k] == inst_at(rom@, k),
            halted ==> scan_end(rom@, 0) == i / 2,
            !halted ==> scan_end(rom@, 0) == scan_end(rom@, i as int / 2),
        decreases rom@.len() - i + (if halted { 0int } else { 1int }),
    {
        let hi: u16 = rom[i] as u16;
        let lo: u16 = rom[i + 1] as u16;
        assert((hi << 8) | lo == hi * 256 + lo) by (bit_vector)
            requires
                hi < 256,
                lo < 256,
        ;
        let opcode: u16 = (hi << 8) | lo;
        let addr: u16 = 0x200 + i as u16;
        let inst = Instruction::new(opcode, addr);
        assert(inst == inst_at(rom@, i as int / 2));
        instructions.push(inst);
        // A jump to itself marks the end of the code; the rest is data.
        if inst.class() == 0x1 && inst.nnn() == addr {
            halted = true;
        }
        i += 2;
    }
    assert(instructions@ =~= scan(rom@));
    instructions
}


/// The upper-case hexadecimal digit for `d`, which is below 16.
pub open spec fn hex_char(d: int) -> char {
    if d == 0 {
        '0'
    } else if d == 1 {
        '1'
    } else if d == 2 {
        '2'
    } else if d == 3 {
        '3'
    } else if d == 4 {
        '4'
    } else if d == 5 {
        '5'
    } else if d == 6 {
        '6'
    } else if d == 7 {
        '7'
    } else if d == 8 {
        '8'
    } else if d == 9 {
        '9'
    } else if d == 10 {
        'A'
    } else if d == 11 {
        'B'
    } else if d == 12 {
        'C'
    } else if d == 13 {
        'D'
    } else if d == 14 {
        'E'
    } else {
        'F'
    }
}

/// One upper-case hexadecimal digit.
pub open spec fn hex1(d: u8) -> Seq<char> {
    seq![hex_char(d as int)]
}

/// Two upper-case hexadecimal digits, as `{:02X}` prints a byte.
pub open spec fn hex2(v: u8) -> Seq<char> {
    hex1(v / 16) + hex1(v % 16)
}

/// At least three upper-case hexadecimal digits, as `{:03X}` prints a 16-bit
/// value: a fourth digit leads where the value does not fit in three.
pub open spec fn hex3(v: u16) -> Seq<char> {
    if v < 0x1000 {
        hex1((v / 256) as u8) + hex2((v % 256) as u8)
    } else {
        hex2((v / 256) as u8) + hex2((v % 256) as u8)
    }
}

/// Four upper-case hexadecimal digits, as `{:04X}` prints a 16-bit value.
pub open spec fn hex4(v: u16) -> Seq<char> {
    hex2((v / 256) as u8) + hex2((v % 256) as u8)
}

/// The decimal digits of a nibble, as `{}` prints it.
pub open spec fn dec_nibble(n: u8) -> Seq<char> {
    if n < 10 {
        hex1(n)
    } else {
        seq!['1'] + hex1((n - 10) as u8)
    }
}

/// The mnemonic of an instruction. Patterns are tried in the order written;
/// an opcode that matches none prints as `???` and its four hex digits.
pub open spec fn mnemonic(inst: Instruction) -> Seq<char> {
    let (c, x, y, n) = inst.spec_nibbles();
    let nn = inst.spec_nn();
    let nnn = inst.spec_nnn();
    if c == 0x0 && x == 0x0 && y == 0xE && n == 0x0 {
        "CLS"@
    } else if c == 0x0 && x == 0x0 && y == 0xE && n == 0xE {
        "RET"@
    } else if c == 0x0 {
        "SYS  "@ + hex3(nnn)
    } else if c == 0x1 {
        "JP   "@ + hex3(nnn)
    } else if c == 0x2 {
        "CALL "@ + hex3(nnn)
    } else if c == 0x3 {
        "SE   V"@ + hex1(x) + ", "@ + hex2(nn)
    } else if c == 0x4 {
        "SNE  V"@ + hex1(x) + ", "@ + hex2(nn)
    } else if c == 0x5 && n == 0x0 {
        "SE   V"@ + hex1(x) + ", V"@ + hex1(y)
    } else if c == 0x6 {
        "LD   V"@ + hex1(x) + ", "@ + hex2(nn)
    } else if c == 0x7 {
        "ADD  V"@ + hex1(x) + ", "@ + hex2(nn)
    } else if c == 0x8 && n == 0x0 {
        "LD   V"@ + hex1(x) + ", V"@ + hex1(y)
    } else if c == 0x8 && n == 0x1 {
        "OR   V"@ + hex1(x) + ", V"@ + hex1(y)
    } else if c == 0x8 && n == 0x2 {
        "AND  V"@ + hex1(x) + ", V"@ + hex1(y)
    } else if c == 0x8 && n == 0x3 {
        "XOR  V"@ + hex1(x) + ", V"@ + hex1(y)
    } else if c == 0x8 && n == 0x4 {
        "ADD  V"@ + hex1(x) + ", V"@ + hex1(y)
    } else if c == 0x8 && n == 0x5 {
        "SUB  V"@ + hex1(x) + ", V"@ + hex1(y)
    } else if c == 0x8 && n == 0x6 {
        "SHR  V"@ + hex1(x)
    } else if c == 0x8 && n == 0x7 {
        "SUBN V"@ + hex1(x) + ", V"@ + hex1(y)
    } else if c == 0x8 && n == 0xE {
        "SHL  V"@ + hex1(x)
    } else if c == 0x9 && n == 0x0 {
        "SNE  V"@ + hex1(x) + ", V"@ + hex1(y)
    } else if c == 0xA {
        "LD   I, "@ + hex3(nnn)
    } else if c == 0xB {
        "JP   V0, "@ + hex3(nnn)
    } else if c == 0xC {
        "RND  V"@ + hex1(x) + ", "@ + hex2(nn)
    } else if c == 0xD {
        "DRW  V"@ + hex1(x) + ", V"@ + hex1(y) + ", "@ + dec_nibble(n)
    } else if c == 0xE && y == 0x9 && n == 0xE {
        "SKP  V"@ + hex1(x)
    } else if c == 0xE && y == 0xA && n == 0x1 {
        "SKNP V"@ + hex1(x)
    } else if c == 0xF && y == 0x0 && n == 0x7 {
        "LD   V"@ + hex1(x) + ", DT"@
    } else if c == 0xF && y == 0x0 && n == 0xA {
        "LD   V"@ + hex1(x) + ", K"@
    } else if c == 0xF && y == 0x1 && n == 0x5 {
        "LD   DT, V"@ + hex1(x)
    } else if c == 0xF && y == 0x1 && n == 0x8 {
        "LD   ST, V"@ + hex1(x)
    } else if c == 0xF && y == 0x1 && n == 0xE {
        "ADD  I, V"@ + hex1(x)
    } else if c == 0xF && y == 0x2 && n == 0x9 {
        "LD   F, V"@ + hex1(x)
    } else if c == 0xF && y == 0x3 && n == 0x3 {
        "LD   B, V"@ + hex1(x)
    } else if c == 0xF && y == 0x5 && n == 0x5 {
        "LD   [I], V"@ + hex1(x)
    } else if c == 0xF && y == 0x6 && n == 0x5 {
        "LD   V"@ + hex1(x) + ", [I]"@
    } else {
        "??? "@ + hex4(inst.opcode)
    }
}

/// One line of a listing: the address in at least three hex digits, a colon,
/// the opcode in four, two spaces and the mnemonic.
pub open spec fn listing_line(inst: Instruction) -> Seq<char> {
    hex3(inst.addr) + ": "@ + hex4(inst.opcode) + "  "@ + mnemonic(inst)
}

/// The text of one hexadecimal digit.
fn hex_digit(d: u8) -> (r: &'static str)
    requires
        d < 16,
    ensures
        r@ == hex1(d),
{
    let r = match d {
        0 => {
            proof {
                reveal_strlit("0");
            }
            "0"
        },
        1 => {
            proof {
                reveal_strlit("1");
            }
            "1"
        },
        2 => {
            proof {
                reveal_strlit("2");
            }
            "2"
        },
        3 => {
            proof {
                reveal_strlit("3");
            }
            "3"
        },
        4 => {
            proof {
                reveal_strlit("4");
            }
            "4"
        },
        5 => {
            proof {
                reveal_strlit("5");
            }
            "5"
        },
        6 => {
            proof {
                reveal_strlit("6");
            }
            "6"
        },
        7 => {
            proof {
                reveal_strlit("7");
            }
            "7"
        },
        8 => {
            proof {
                reveal_strlit("8");
            }
            "8"
        },
        9 => {
            proof {
                reveal_strlit("9");
            }
            "9"
        },
        10 => {
            proof {
                reveal_strlit("A");
            }
            "A"
        },
        11 => {
            proof {
                reveal_strlit("B");
            }
            "B"
        },
        12 => {
            proof {
                reveal_strlit("C");
            }
            "C"
        },
        13 => {
            proof {
                reveal_strlit("D");
            }
            "D"
        },
        14 => {
            proof {
                reveal_strlit("E");
            }
            "E"
        },
        _ => {
            proof {
                reveal_strlit("F");
            }
            "F"
        },
    };
    assert(r@ =~= hex1(d));
    r
}

fn append_hex1(s: &mut String, d: u8)
    requires
        d < 16,
    ensures
        final(s)@ == old(s)@ + hex1(d),
{
    s.append(hex_digit(d));
}

fn append_hex2(s: &mut String, v: u8)
    ensures
        final(s)@ == old(s)@ + hex2(v),
{
    s.append(hex_digit(v / 16));
    s.append(hex_digit(v % 16));
    assert(s@ =~= old(s)@ + hex2(v));
}

pub(crate) fn append_hex3(s: &mut String, v: u16)
    ensures
        final(s)@ == old(s)@ + hex3(v),
{
    let hi: u8 = (v / 256) as u8;
    let lo: u8 = (v % 256) as u8;
    if v < 0x1000 {
        s.append(hex_digit(hi));
    } else {
        append_hex2(s, hi);
    }
    append_hex2(s, lo);
    assert(s@ =~= old(s)@ + hex3(v));
}

fn append_hex4(s: &mut String, v: u16)
    ensures
        final(s)@ == old(s)@ + hex4(v),
{
    append_hex2(s, (v / 256) as u8);
    append_hex2(s, (v % 256) as u8);
    assert(s@ =~= old(s)@ + hex4(v));
}

fn append_dec_nibble(s: &mut String, n: u8)
    requires
        n < 16,
    ensures
        final(s)@ == old(s)@ + dec_nibble(n),
{
    if n < 10 {
        s.append(hex_digit(n));
    } else {
        proof {
            reveal_strlit("1");
        }
        s.append("1");
        s.append(hex_digit(n - 10));
        assert("1"@ =~= seq!['1']);
        assert(s@ =~= old(s)@ + dec_nibble(n));
    }
}

/// `head`, then the `Vx` digit.
fn text_x(head: &str, x: u8) -> (r: String)
    requires
        x < 16,
    ensures
        r@ == head@ + hex1(x),
{
    let mut s = String::from_str(head);
    append_hex1(&mut s, x);
    s
}

/// `head`, the `Vx` digit, then `tail`.
fn text_x_tail(head: &str, x: u8, tail: &str) -> (r: String)
    requires
        x < 16,
    ensures
        r@ == head@ + hex1(x) + tail@,
{
    let mut s = text_x(head, x);
    s.append(tail);
    s
}

/// `head`, the `Vx` digit, a comma and the byte in two digits.
fn text_x_nn(head: &str, x: u8, nn: u8) -> (r: String)
    requires
        x < 16,
    ensures
        r@ == head@ + hex1(x) + ", "@ + hex2(nn),
{
    let mut s = text_x_tail(head, x, ", ");
    append_hex2(&mut s, nn);
    s
}

/// `head`, the `Vx` digit, a comma and `V` with the `Vy` digit.
fn text_x_y(head: &str, x: u8, y: u8) -> (r: String)
    requires
        x < 16,
        y < 16,
    ensures
        r@ == head@ + hex1(x) + ", V"@ + hex1(y),
{
    let mut s = text_x_tail(head, x, ", V");
    append_hex1(&mut s, y);
    s
}

/// `head`, then the address in three digits.
fn text_nnn(head: &str, nnn: u16) -> (r: String)
    ensures
        r@ == head@ + hex3(nnn),
{
    let mut s = String::from_str(head);
    append_hex3(&mut s, nnn);
    s
}

/// Disassemble a single instruction.
pub fn disasm_instruction(inst: &Instruction) -> (text: String)
    ensures
        text@ == mnemonic(*inst),
{
    let (n0, n1, n2, n3) = inst.nibbles();
    let x = inst.x();
    let y = inst.y();
    let nn = inst.nn();
    let nnn = inst.nnn();
    if n0 == 0x0 && n1 == 0x0 && n2 == 0xE && n3 == 0x0 {
        String::from_str("CLS")
    } else if n0 == 0x0 && n1 == 0x0 && n2 == 0xE && n3 == 0xE {
        String::from_str("RET")
    } else if n0 == 0x0 {
        text_nnn("SYS  ", nnn)
    } else if n0 == 0x1 {
        text_nnn("JP   ", nnn)
    } else if n0 == 0x2 {
        text_nnn("CALL ", nnn)
    } else if n0 == 0x3 {
        text_x_nn("SE   V", x, nn)
    } else if n0 == 0x4 {
        text_x_nn("SNE  V", x, nn)
    } else if n0 == 0x5 && n3 == 0x0 {
        text_x_y("SE   V", x, y)
    } else if n0 == 0x6 {
        text_x_nn("LD   V", x, nn)
    } else if n0 == 0x7 {
        text_x_nn("ADD  V", x, nn)
    } else if n0 == 0x8 && n3 == 0x0 {
        text_x_y("LD   V", x, y)
    } else if n0 == 0x8 && n3 == 0x1 {
        text_x_y("OR   V", x, y)
    } else if n0 == 0x8 && n3 == 0x2 {
        text_x_y("AND  V", x, y)
    } else if n0 == 0x8 && n3 == 0x3 {
        text_x_y("XOR  V", x, y)
    } else if n0 == 0x8 && n3 == 0x4 {
        text_x_y("ADD  V", x, y)
    } else if n0 == 0x8 && n3 == 0x5 {
        text_x_y("SUB  V", x, y)
    } else if n0 == 0x8 && n3 == 0x6 {
        text_x("SHR  V", x)
    } else if n0 == 0x8 && n3 == 0x7 {
        text_x_y("SUBN V", x, y)
    } else if n0 == 0x8 && n3 == 0xE {
        text_x("SHL  V", x)
    } else if n0 == 0x9 && n3 == 0x0 {
        text_x_y("SNE  V", x, y)
    } else if n0 == 0xA {
        text_nnn("LD   I, ", nnn)
    } else if n0 == 0xB {
        text_nnn("JP   V0, ", nnn)
    } else if n0 == 0xC {
        text_x_nn("RND  V", x, nn)
    } else if n0 == 0xD {
        let mut s = text_x_y("DRW  V", x, y);
        s.append(", ");
        append_dec_nibble(&mut s, n3);
        s
    } else if n0 == 0xE && n2 == 0x9 && n3 == 0xE {
        text_x("SKP  V", x)
    } else if n0 == 0xE && n2 == 0xA && n3 == 0x1 {
        text_x("SKNP V", x)
    } else if n0 == 0xF && n2 == 0x0 && n3 == 0x7 {
        text_x_tail("LD   V", x, ", DT")
    } else if n0 == 0xF && n2 == 0x0 && n3 == 0xA {
        text_x_tail("LD   V", x, ", K")
    } else if n0 == 0xF && n2 == 0x1 && n3 == 0x5 {
        text_x("LD   DT, V", x)
    } else if n0 == 0xF && n2 == 0x1 && n3 == 0x8 {
        text_x("LD   ST, V", x)
    } else if n0 == 0xF && n2 == 0x1 && n3 == 0xE {
        text_x("ADD  I, V", x)
    } else if n0 == 0xF && n2 == 0x2 && n3 == 0x9 {
        text_x("LD   F, V", x)
    } else if n0 == 0xF && n2 == 0x3 && n3 == 0x3 {
        text_x("LD   B, V", x)
    } else if n0 == 0xF && n2 == 0x5 && n3 == 0x5 {
        text_x("LD   [I], V", x)
    } else if n0 == 0xF && n2 == 0x6 && n3 == 0x5 {
        text_x_tail("LD   V", x, ", [I]")
    } else {
        let mut s = String::from_str("??? ");
        append_hex4(&mut s, inst.opcode);
        s
    }
}

/// The listing line of one instruction: address, opcode and mnemonic.
pub fn disasm_line(inst: &Instruction) -> (line: String)
    ensures
        line@ == listing_line(*inst),
{
    let mut s = String::new();
    append_hex3(&mut s, inst.addr);
    s.append(": ");
    append_hex4(&mut s, inst.opcode);
    s.append("  ");
    let m = disasm_instruction(inst);
    s.append(m.as_str());
    assert(s@ =~= listing_line(*inst));
    s
}

/// The listing of a ROM: one line for each instruction of its stream, in
/// order.
pub open spec fn listing(rom: Seq<u8>) -> Seq<Seq<char>> {
    Seq::new(scan(rom).len(), |k: int| listing_line(scan(rom)[k]))
}

/// `lines` is the listing of `rom`, line for line.
pub open spec fn is_listing(rom: Seq<u8>, lines: Seq<String>) -> bool {
    &&& lines.len() == listing(rom).len()
    &&& forall|k: int| 0 <= k < lines.len() ==> (#[trigger] lines[k])@ == listing(rom)[k]
}

/// Disassembling is repeatable: two listings of the same ROM have the same
/// lines, character for character.
pub proof fn lemma_listing_repeatable(rom: Seq<u8>, first: Seq<String>, second: Seq<String>)
    requires
        is_listing(rom, first),
        is_listing(rom, second),
    ensures
        first.len() == second.len(),
        forall|k: int| 0 <= k < first.len() ==> (#[trigger] first[k])@ == second[k]@,
{
}

/// Disassemble a ROM: one listing line for each instruction of its stream,
/// in order.
pub fn disassemble(rom: &[u8]) -> (lines: Vec<String>)
    requires
        rom@.len() <= MAX_ROM_LEN,
    ensures
        is_listing(rom@, lines@),
{
    let instructions = parse(rom);
    let mut lines: Vec<String> = Vec::new();
    let mut k: usize = 0;
    while k < instructions.len()
        invariant
            k <= instructions@.len(),
            lines@.len() == k,
            forall|j: int| 0 <= j < k ==> (#[trigger] lines@[j])@ == listing_line(instructions@[j]),
        decreases instructions@.len() - k,
    {
        let line = disasm_line(&instructions[k]);
        lines.push(line);
        k += 1;
    }
    lines
}

} // verus!
