//! The compiled images, run on a small model of the target: a Z80 core
//! limited to the instructions that the compiler emits, ROM below 0x8000,
//! RAM above, and a serial port at 0x80 (status) and 0x81 (data).

use kz80_chip8::codegen::Compiler;
use kz80_chip8::label::{Label, Routine};
use std::collections::VecDeque;

const V0: usize = 0x8000;
const VF: usize = 0x800F;
const I_REG: usize = 0x8010;
const SP_REG: usize = 0x8012;
const DT: usize = 0x8013;
const ST: usize = 0x8014;
const RNG: usize = 0x8016;
const STACK: usize = 0x8100;
const DISPLAY: usize = 0x8200;
const FONT: usize = 0x8300;
const RAM: usize = 0x8400;

struct Machine {
    mem: Vec<u8>,
    a: u8,
    b: u8,
    c: u8,
    d: u8,
    e: u8,
    h: u8,
    l: u8,
    zero: bool,
    carry: bool,
    sp: u16,
    pc: u16,
    sent: Vec<u8>,
    keys: VecDeque<u8>,
    steps: u64,
}

impl Machine {
    fn new(image: &[u8]) -> Machine {
        let mut mem = vec![0xEEu8; 0x10000];
        mem[..image.len()].copy_from_slice(image);
        Machine {
            mem,
            a: 0x55,
            b: 0x55,
            c: 0x55,
            d: 0x55,
            e: 0x55,
            h: 0x55,
            l: 0x55,
            zero: false,
            carry: true,
            sp: 0x1234,
            pc: 0,
            sent: Vec::new(),
            keys: VecDeque::new(),
            steps: 0,
        }
    }

    fn hl(&self) -> u16 {
        ((self.h as u16) << 8) | self.l as u16
    }

    fn de(&self) -> u16 {
        ((self.d as u16) << 8) | self.e as u16
    }

    fn bc(&self) -> u16 {
        ((self.b as u16) << 8) | self.c as u16
    }

    fn set_hl(&mut self, v: u16) {
        self.h = (v >> 8) as u8;
        self.l = v as u8;
    }

    fn set_de(&mut self, v: u16) {
        self.d = (v >> 8) as u8;
        self.e = v as u8;
    }

    fn read(&self, addr: u16) -> u8 {
        self.mem[addr as usize]
    }

    fn write(&mut self, addr: u16, v: u8) {
        assert!(addr >= 0x8000, "write to ROM at {:04X} from {:04X}", addr, self.pc);
        self.mem[addr as usize] = v;
    }

    fn fetch(&mut self) -> u8 {
        let v = self.read(self.pc);
        self.pc = self.pc.wrapping_add(1);
        v
    }

    fn fetch16(&mut self) -> u16 {
        let lo = self.fetch() as u16;
        let hi = self.fetch() as u16;
        (hi << 8) | lo
    }

    fn push(&mut self, v: u16) {
        self.sp = self.sp.wrapping_sub(1);
        self.write(self.sp, (v >> 8) as u8);
        self.sp = self.sp.wrapping_sub(1);
        self.write(self.sp, v as u8);
    }

    fn pop(&mut self) -> u16 {
        let lo = self.read(self.sp) as u16;
        self.sp = self.sp.wrapping_add(1);
        let hi = self.read(self.sp) as u16;
        self.sp = self.sp.wrapping_add(1);
        (hi << 8) | lo
    }

    fn flags(&self) -> u8 {
        ((self.zero as u8) << 6) | self.carry as u8
    }

    fn add(&mut self, v: u8, carry_in: bool) {
        let sum = self.a as u16 + v as u16 + carry_in as u16;
        self.a = sum as u8;
        self.carry = sum > 0xFF;
        self.zero = self.a == 0;
    }

    fn compare(&mut self, v: u8) -> u8 {
        let diff = self.a.wrapping_sub(v);
        self.carry = self.a < v;
        self.zero = diff == 0;
        diff
    }

    fn logic(&mut self, v: u8) {
        self.a = v;
        self.carry = false;
        self.zero = v == 0;
    }

    fn jump_if(&mut self, taken: bool) {
        let target = self.fetch16();
        if taken {
            self.pc = target;
        }
    }

    /// Run one instruction. Returns false where the machine parks: at a
    /// jump to itself or a `HALT`.
    fn step(&mut self) -> bool {
        let at = self.pc;
        let op = self.fetch();
        match op {
            0x01 => {
                let v = self.fetch16();
                self.b = (v >> 8) as u8;
                self.c = v as u8;
            }
            0x11 => {
                let v = self.fetch16();
                self.set_de(v);
            }
            0x21 => {
                let v = self.fetch16();
                self.set_hl(v);
            }
            0x31 => self.sp = self.fetch16(),
            0x3E => self.a = self.fetch(),
            0x06 => self.b = self.fetch(),
            0x16 => self.d = self.fetch(),
            0x1E => self.e = self.fetch(),
            0x26 => self.h = self.fetch(),
            0x7E => self.a = self.read(self.hl()),
            0x77 => self.write(self.hl(), self.a),
            0x1A => self.a = self.read(self.de()),
            0x12 => self.write(self.de(), self.a),
            0x78 => self.a = self.b,
            0x79 => self.a = self.c,
            0x7A => self.a = self.d,
            0x7B => self.a = self.e,
            0x7C => self.a = self.h,
            0x7D => self.a = self.l,
            0x6F => self.l = self.a,
            0x67 => self.h = self.a,
            0x1F => {
                let out = self.a & 0x01 != 0;
                self.a = (self.a >> 1) | ((self.carry as u8) << 7);
                self.carry = out;
            }
            0xAD => self.logic(self.a ^ self.l),
            0x5F => self.e = self.a,
            0x57 => self.d = self.a,
            0x4F => self.c = self.a,
            0x5E => self.e = self.read(self.hl()),
            0x56 => self.d = self.read(self.hl()),
            0x66 => self.h = self.read(self.hl()),
            0x3A => {
                let addr = self.fetch16();
                self.a = self.read(addr);
            }
            0x32 => {
                let addr = self.fetch16();
                self.write(addr, self.a);
            }
            0x23 => {
                let v = self.hl().wrapping_add(1);
                self.set_hl(v);
            }
            0x13 => {
                let v = self.de().wrapping_add(1);
                self.set_de(v);
            }
            0x0B => {
                let v = self.bc().wrapping_sub(1);
                self.b = (v >> 8) as u8;
                self.c = v as u8;
            }
            0x04 => {
                self.b = self.b.wrapping_add(1);
                self.zero = self.b == 0;
            }
            0x34 => {
                let v = self.read(self.hl()).wrapping_add(1);
                self.write(self.hl(), v);
                self.zero = v == 0;
            }
            0x3D => {
                self.a = self.a.wrapping_sub(1);
                self.zero = self.a == 0;
            }
            0x05 => {
                self.b = self.b.wrapping_sub(1);
                self.zero = self.b == 0;
            }
            0x15 => {
                self.d = self.d.wrapping_sub(1);
                self.zero = self.d == 0;
            }
            0x1D => {
                self.e = self.e.wrapping_sub(1);
                self.zero = self.e == 0;
            }
            0x19 => {
                let sum = self.hl() as u32 + self.de() as u32;
                self.carry = sum > 0xFFFF;
                self.set_hl(sum as u16);
            }
            0x29 => {
                let sum = self.hl() as u32 * 2;
                self.carry = sum > 0xFFFF;
                self.set_hl(sum as u16);
            }
            0xC6 => {
                let v = self.fetch();
                self.add(v, false);
            }
            0x86 => {
                let v = self.read(self.hl());
                self.add(v, false);
            }
            0xCE => {
                let v = self.fetch();
                let c = self.carry;
                self.add(v, c);
            }
            0xD6 => {
                let v = self.fetch();
                self.a = self.compare(v);
            }
            0x96 => {
                let v = self.read(self.hl());
                self.a = self.compare(v);
            }
            0xFE => {
                let v = self.fetch();
                self.compare(v);
            }
            0xBE => {
                let v = self.read(self.hl());
                self.compare(v);
            }
            0xE6 => {
                let v = self.fetch();
                self.logic(self.a & v);
            }
            0xA3 => self.logic(self.a & self.e),
            0xA6 => self.logic(self.a & self.read(self.hl())),
            0xB7 => self.logic(self.a),
            0xB1 => self.logic(self.a | self.c),
            0xB6 => self.logic(self.a | self.read(self.hl())),
            0xAF => self.logic(0),
            0xAC => self.logic(self.a ^ self.h),
            0xAE => self.logic(self.a ^ self.read(self.hl())),
            0xF5 => {
                let v = ((self.a as u16) << 8) | self.flags() as u16;
                self.push(v);
            }
            0xE5 => self.push(self.hl()),
            0xD5 => self.push(self.de()),
            0xF1 => {
                let v = self.pop();
                self.a = (v >> 8) as u8;
                self.zero = v & 0x40 != 0;
                self.carry = v & 0x01 != 0;
            }
            0xE1 => {
                let v = self.pop();
                self.set_hl(v);
            }
            0xD1 => {
                let v = self.pop();
                self.set_de(v);
            }
            0xEB => {
                let (hl, de) = (self.hl(), self.de());
                self.set_hl(de);
                self.set_de(hl);
            }
            0xD3 => {
                let port = self.fetch();
                if port == 0x81 {
                    self.sent.push(self.a);
                } else {
                    assert_eq!(port, 0x80);
                }
            }
            0xDB => {
                let port = self.fetch();
                self.a = match port {
                    0x80 => 0x02 | !self.keys.is_empty() as u8,
                    0x81 => self.keys.pop_front().expect("a byte is waiting"),
                    _ => panic!("read of port {:02X}", port),
                };
            }
            0xC3 => {
                let target = self.fetch16();
                if target == at {
                    self.pc = at;
                    return false;
                }
                self.pc = target;
            }
            0xCA => self.jump_if(self.zero),
            0xC2 => self.jump_if(!self.zero),
            0xDA => self.jump_if(self.carry),
            0xD2 => self.jump_if(!self.carry),
            0xCD => {
                let target = self.fetch16();
                self.push(self.pc);
                self.pc = target;
            }
            0xC9 => self.pc = self.pop(),
            0xC8 => {
                if self.zero {
                    self.pc = self.pop();
                }
            }
            0x76 => {
                self.pc = at;
                return false;
            }
            0xED => {
                let ext = self.fetch();
                assert_eq!(ext, 0x52, "ED {:02X} at {:04X}", ext, at);
                let diff = self.hl() as i32 - self.de() as i32 - self.carry as i32;
                self.carry = diff < 0;
                self.zero = diff as u16 == 0;
                self.set_hl(diff as u16);
            }
            0xCB => {
                let ext = self.fetch();
                match ext {
                    0x07 => {
                        self.carry = self.a & 0x80 != 0;
                        self.a = self.a.rotate_left(1);
                        self.zero = self.a == 0;
                    }
                    0x3F => {
                        self.carry = self.a & 0x01 != 0;
                        self.a >>= 1;
                        self.zero = self.a == 0;
                    }
                    0x27 => {
                        self.carry = self.a & 0x80 != 0;
                        self.a <<= 1;
                        self.zero = self.a == 0;
                    }
                    _ => panic!("CB {:02X} at {:04X}", ext, at),
                }
            }
            _ => panic!("opcode {:02X} at {:04X}", op, at),
        }
        true
    }

    /// Run from reset until the machine parks.
    fn run(&mut self) {
        while self.step() {
            self.steps += 1;
            assert!(self.steps < 5_000_000, "still running at {:04X}", self.pc);
        }
    }
}

/// Compile `rom`, boot the image and run it until control reaches `stop`.
fn run_until(rom: &[u8], stop: u16) -> Machine {
    let mut compiler = Compiler::new();
    let image = compiler.compile(rom).expect("the ROM compiles");
    let mut machine = Machine::new(&image);
    while machine.pc != stop || machine.steps == 0 {
        assert!(machine.step(), "parked at {:04X}", machine.pc);
        machine.steps += 1;
        assert!(machine.steps < 5_000_000, "still running at {:04X}", machine.pc);
    }
    machine
}

/// Compile `rom`, boot the image and run it until it parks.
fn run(rom: &[u8]) -> (Machine, Compiler) {
    run_with_keys(rom, b"")
}

fn run_with_keys(rom: &[u8], keys: &[u8]) -> (Machine, Compiler) {
    let mut compiler = Compiler::new();
    let image = compiler.compile(rom).expect("the ROM compiles");
    let mut machine = Machine::new(&image);
    machine.keys = keys.iter().copied().collect();
    machine.run();
    (machine, compiler)
}

fn parked_at(machine: &Machine, compiler: &Compiler, addr: u16) -> bool {
    compiler.lookup(Label::Chip8(addr)) == Some(machine.pc as usize)
}

fn screen(machine: &Machine) -> &[u8] {
    &machine.mem[DISPLAY..DISPLAY + 256]
}

#[test]
fn boot_clears_state_and_reaches_the_program() {
    let (m, c) = run(&[0x12, 0x00]);
    assert!(parked_at(&m, &c, 0x200));
    assert!(m.mem[V0..V0 + 0x16].iter().all(|b| *b == 0));
    assert_eq!(&m.mem[RNG..RNG + 2], &[0xAC, 0xE1]);
    assert!(m.mem[0x8018..0x8020].iter().all(|b| *b == 0));
    assert!(screen(&m).iter().all(|b| *b == 0));
    assert_eq!(m.sp, 0x0000);
}

#[test]
fn boot_copies_the_font() {
    let (m, _) = run(&[0x12, 0x00]);
    let font: [u8; 80] = [
        0xF0, 0x90, 0x90, 0x90, 0xF0, 0x20, 0x60, 0x20, 0x20, 0x70, 0xF0, 0x10, 0xF0, 0x80, 0xF0,
        0xF0, 0x10, 0xF0, 0x10, 0xF0, 0x90, 0x90, 0xF0, 0x10, 0x10, 0xF0, 0x80, 0xF0, 0x10, 0xF0,
        0xF0, 0x80, 0xF0, 0x90, 0xF0, 0xF0, 0x10, 0x20, 0x40, 0x40, 0xF0, 0x90, 0xF0, 0x90, 0xF0,
        0xF0, 0x90, 0xF0, 0x10, 0xF0, 0xF0, 0x90, 0xF0, 0x90, 0x90, 0xE0, 0x90, 0xE0, 0x90, 0xE0,
        0xF0, 0x80, 0x80, 0x80, 0xF0, 0xE0, 0x90, 0x90, 0x90, 0xE0, 0xF0, 0x80, 0xF0, 0x80, 0xF0,
        0xF0, 0x80, 0xF0, 0x80, 0x80,
    ];
    assert_eq!(&m.mem[FONT..FONT + 80], &font);
}

#[test]
fn boot_prints_the_cleared_screen_then_the_banner() {
    let (m, _) = run(&[0x12, 0x00]);
    let mut expected = Vec::new();
    expected.extend_from_slice(b"\x1b[2;1H");
    for _ in 0..32 {
        expected.extend_from_slice(&[b' '; 64]);
        expected.extend_from_slice(b"\r\n");
    }
    expected.extend_from_slice(b"CHIP-8 on Z80\r\n");
    assert_eq!(m.sent, expected);
}

#[test]
fn single_byte_rom_parks_in_the_halt_loop() {
    let (m, c) = run(&[0x12]);
    assert_eq!(Some(m.pc as usize), c.lookup(Label::Routine(Routine::Halt)));
}

#[test]
fn ld_and_add_leave_the_sum_in_v0() {
    let (m, c) = run(&[0x60, 0x05, 0x70, 0x03, 0x12, 0x04]);
    assert_eq!(m.mem[V0], 0x08);
    assert!(parked_at(&m, &c, 0x204));
}

#[test]
fn add_immediate_wraps_and_leaves_vf_alone() {
    let (m, _) = run(&[0x60, 0xFF, 0x6F, 0x07, 0x70, 0x02, 0x12, 0x06]);
    assert_eq!(m.mem[V0], 0x01);
    assert_eq!(m.mem[VF], 0x07);
}

#[test]
fn skip_taken_jumps_over_one_instruction() {
    let (m, c) = run(&[0x60, 0x07, 0x30, 0x07, 0x60, 0xFF, 0x12, 0x06]);
    assert_eq!(m.mem[V0], 0x07);
    assert!(parked_at(&m, &c, 0x206));
}

#[test]
fn skip_not_taken_falls_through() {
    let (m, _) = run(&[0x60, 0x07, 0x30, 0x08, 0x60, 0xFF, 0x12, 0x06]);
    assert_eq!(m.mem[V0], 0xFF);
}

#[test]
fn sne_skips_on_a_difference_only() {
    let (m, _) = run(&[0x60, 0x07, 0x40, 0x08, 0x60, 0xFF, 0x12, 0x06]);
    assert_eq!(m.mem[V0], 0x07);
    let (m, _) = run(&[0x60, 0x07, 0x40, 0x07, 0x60, 0xFF, 0x12, 0x06]);
    assert_eq!(m.mem[V0], 0xFF);
}

#[test]
fn register_skips_compare_vx_with_vy() {
    // V1 = V2 = 3: SE V1, V2 skips, SNE V1, V2 does not.
    let (m, _) = run(&[0x61, 0x03, 0x62, 0x03, 0x51, 0x20, 0x60, 0x11, 0x91, 0x20, 0x63, 0x22, 0x12, 0x0C]);
    assert_eq!(m.mem[V0], 0x00);
    assert_eq!(m.mem[V0 + 3], 0x22);
    // V1 = 3, V2 = 4: the other way round.
    let (m, _) = run(&[0x61, 0x03, 0x62, 0x04, 0x51, 0x20, 0x60, 0x11, 0x91, 0x20, 0x63, 0x22, 0x12, 0x0C]);
    assert_eq!(m.mem[V0], 0x11);
    assert_eq!(m.mem[V0 + 3], 0x00);
}

#[test]
fn jump_goes_to_the_translation_of_its_target() {
    // JP 0x204 over LD V0, 0x11.
    let (m, c) = run(&[0x12, 0x04, 0x60, 0x11, 0x61, 0x22, 0x12, 0x06]);
    assert_eq!(m.mem[V0], 0x00);
    assert_eq!(m.mem[V0 + 1], 0x22);
    assert!(parked_at(&m, &c, 0x206));
}

#[test]
fn loop_with_a_backward_jump_counts_to_ten() {
    let rom = [0x60, 0x00, 0x70, 0x01, 0x30, 0x0A, 0x12, 0x02, 0x12, 0x08];
    let (m, c) = run(&rom);
    assert_eq!(m.mem[V0], 10);
    assert!(parked_at(&m, &c, 0x208));
}

#[test]
fn register_moves_and_logic() {
    let rom = [
        0x61, 0x5A, 0x62, 0x0F, // V1 = 5A, V2 = 0F
        0x83, 0x10, // V3 = V1
        0x84, 0x10, 0x84, 0x21, // V4 = V1 | V2
        0x85, 0x10, 0x85, 0x22, // V5 = V1 & V2
        0x86, 0x10, 0x86, 0x23, // V6 = V1 ^ V2
        0x12, 0x12,
    ];
    let (m, _) = run(&rom);
    assert_eq!(m.mem[V0 + 3], 0x5A);
    assert_eq!(m.mem[V0 + 4], 0x5F);
    assert_eq!(m.mem[V0 + 5], 0x0A);
    assert_eq!(m.mem[V0 + 6], 0x55);
}

#[test]
fn add_registers_sets_vf_to_the_carry() {
    let (m, _) = run(&[0x60, 0xF0, 0x61, 0x20, 0x80, 0x14, 0x12, 0x06]);
    assert_eq!(m.mem[V0], 0x10);
    assert_eq!(m.mem[VF], 1);
    let (m, _) = run(&[0x60, 0x10, 0x61, 0x20, 0x6F, 0x09, 0x80, 0x14, 0x12, 0x08]);
    assert_eq!(m.mem[V0], 0x30);
    assert_eq!(m.mem[VF], 0);
}

#[test]
fn sub_sets_vf_when_there_is_no_borrow() {
    let (m, _) = run(&[0x60, 0x30, 0x61, 0x10, 0x80, 0x15, 0x12, 0x06]);
    assert_eq!(m.mem[V0], 0x20);
    assert_eq!(m.mem[VF], 1);
    let (m, _) = run(&[0x60, 0x10, 0x61, 0x30, 0x80, 0x15, 0x12, 0x06]);
    assert_eq!(m.mem[V0], 0xE0);
    assert_eq!(m.mem[VF], 0);
    let (m, _) = run(&[0x60, 0x10, 0x61, 0x10, 0x80, 0x15, 0x12, 0x06]);
    assert_eq!(m.mem[V0], 0x00);
    assert_eq!(m.mem[VF], 1);
}

#[test]
fn subn_subtracts_vx_from_vy() {
    let (m, _) = run(&[0x60, 0x10, 0x61, 0x30, 0x80, 0x17, 0x12, 0x06]);
    assert_eq!(m.mem[V0], 0x20);
    assert_eq!(m.mem[V0 + 1], 0x30);
    assert_eq!(m.mem[VF], 1);
    let (m, _) = run(&[0x60, 0x30, 0x61, 0x10, 0x80, 0x17, 0x12, 0x06]);
    assert_eq!(m.mem[V0], 0xE0);
    assert_eq!(m.mem[VF], 0);
}

#[test]
fn shifts_work_on_vx_and_put_the_lost_bit_in_vf() {
    // SHR V0 with V1 as the ignored operand.
    let (m, _) = run(&[0x60, 0x05, 0x61, 0xFF, 0x80, 0x16, 0x12, 0x06]);
    assert_eq!(m.mem[V0], 0x02);
    assert_eq!(m.mem[V0 + 1], 0xFF);
    assert_eq!(m.mem[VF], 1);
    let (m, _) = run(&[0x60, 0x04, 0x6F, 0x01, 0x80, 0x16, 0x12, 0x06]);
    assert_eq!(m.mem[V0], 0x02);
    assert_eq!(m.mem[VF], 0);
    let (m, _) = run(&[0x60, 0x81, 0x80, 0x1E, 0x12, 0x04]);
    assert_eq!(m.mem[V0], 0x02);
    assert_eq!(m.mem[VF], 1);
    let (m, _) = run(&[0x60, 0x41, 0x80, 0x1E, 0x12, 0x04]);
    assert_eq!(m.mem[V0], 0x82);
    assert_eq!(m.mem[VF], 0);
}

#[test]
fn ld_i_stores_the_address_low_byte_first() {
    let (m, _) = run(&[0xA3, 0x45, 0x12, 0x02]);
    assert_eq!(&m.mem[I_REG..I_REG + 2], &[0x45, 0x03]);
}

#[test]
fn add_i_adds_in_16_bits_without_touching_vf() {
    let (m, _) = run(&[0xA2, 0xF0, 0x60, 0x20, 0x6F, 0x05, 0xF0, 0x1E, 0x12, 0x08]);
    assert_eq!(&m.mem[I_REG..I_REG + 2], &[0x10, 0x03]);
    assert_eq!(m.mem[VF], 0x05);
}

#[test]
fn ld_f_points_i_at_the_glyph_offset() {
    let (m, _) = run(&[0x60, 0x0A, 0xF0, 0x29, 0x12, 0x04]);
    assert_eq!(&m.mem[I_REG..I_REG + 2], &[50, 0]);
    // Only the low nibble counts, so `I` stays below 0x50.
    let (m, _) = run(&[0x60, 0xFF, 0xF0, 0x29, 0x12, 0x04]);
    assert_eq!(&m.mem[I_REG..I_REG + 2], &[75, 0]);
}

#[test]
fn timers_are_plain_storage() {
    let rom = [0x60, 0x2A, 0xF0, 0x15, 0xF0, 0x18, 0xF1, 0x07, 0x12, 0x08];
    let (m, _) = run(&rom);
    assert_eq!(m.mem[DT], 0x2A);
    assert_eq!(m.mem[ST], 0x2A);
    assert_eq!(m.mem[V0 + 1], 0x2A);
}

#[test]
fn font_glyph_is_drawn_at_the_top_left() {
    let (m, c) = run(&[0x60, 0x00, 0x61, 0x00, 0xF0, 0x29, 0xD0, 0x15, 0x12, 0x08]);
    assert!(parked_at(&m, &c, 0x208));
    let glyph = [0xF0, 0x90, 0x90, 0x90, 0xF0];
    for (row, bits) in glyph.iter().enumerate() {
        assert_eq!(screen(&m)[8 * row], *bits);
    }
    let lit: u32 = screen(&m).iter().map(|b| b.count_ones()).sum();
    assert_eq!(lit, 14);
    assert_eq!(m.mem[VF], 0);
}

#[test]
fn drawing_prints_the_screen() {
    let (m, _) = run(&[0x60, 0x00, 0x61, 0x00, 0xF0, 0x29, 0xD0, 0x15, 0x12, 0x08]);
    let text = String::from_utf8(m.sent.clone()).unwrap();
    let frame = text.rsplit("\x1b[2;1H").next().unwrap();
    let lines: Vec<&str> = frame.split("\r\n").collect();
    assert_eq!(lines.len(), 33);
    assert_eq!(lines[32], "");
    let blank = " ".repeat(60);
    assert_eq!(lines[0], format!("####{}", blank));
    assert_eq!(lines[1], format!("#  #{}", blank));
    assert_eq!(lines[4], format!("####{}", blank));
    assert_eq!(lines[5], " ".repeat(64));
}

#[test]
fn drawing_twice_erases_and_reports_the_collision() {
    let rom = [0x60, 0x00, 0xF0, 0x29, 0xD0, 0x05, 0xD0, 0x05, 0x12, 0x08];
    let (m, _) = run(&rom);
    assert!(screen(&m).iter().all(|b| *b == 0));
    assert_eq!(m.mem[VF], 1);
}

#[test]
fn drawing_wraps_the_coordinates_and_aligns_to_bytes() {
    // V0 = 64 + 19 -> column byte 2; V1 = 32 + 3 -> row 3.
    let rom = [0x60, 0x53, 0x61, 0x23, 0x62, 0x01, 0xF2, 0x29, 0xD0, 0x11, 0x12, 0x0A];
    let (m, _) = run(&rom);
    assert_eq!(screen(&m)[3 * 8 + 2], 0x20);
    let lit: u32 = screen(&m).iter().map(|b| b.count_ones()).sum();
    assert_eq!(lit, 1);
}

#[test]
fn sprites_outside_the_font_come_from_the_embedded_rom() {
    // I = 0x208: the two data bytes behind the self-jump.
    let rom = [0xA2, 0x08, 0xD0, 0x02, 0x12, 0x04, 0x00, 0x00, 0xA5, 0x3C];
    let (m, _) = run(&rom);
    assert_eq!(screen(&m)[0], 0xA5);
    assert_eq!(screen(&m)[8], 0x3C);
}

#[test]
fn bcd_writes_hundreds_tens_and_ones() {
    let (m, c) = run(&[0x60, 0xEA, 0xA3, 0x00, 0xF0, 0x33, 0x12, 0x06]);
    assert!(parked_at(&m, &c, 0x206));
    // I = 0x300 maps to CHIP8_RAM + (I - 0x200).
    assert_eq!(&m.mem[RAM + 0x100..RAM + 0x103], &[2, 3, 4]);
}

#[test]
fn bcd_at_the_start_of_ram() {
    let (m, _) = run(&[0x60, 0xEA, 0xA2, 0x00, 0xF0, 0x33, 0x12, 0x06]);
    assert_eq!(&m.mem[RAM..RAM + 3], &[2, 3, 4]);
}

#[test]
fn bcd_of_the_extremes() {
    let (m, _) = run(&[0x60, 0x00, 0xA2, 0x00, 0xF0, 0x33, 0x12, 0x06]);
    assert_eq!(&m.mem[RAM..RAM + 3], &[0, 0, 0]);
    let (m, _) = run(&[0x60, 0xFF, 0xA2, 0x00, 0xF0, 0x33, 0x12, 0x06]);
    assert_eq!(&m.mem[RAM..RAM + 3], &[2, 5, 5]);
    let (m, _) = run(&[0x60, 0x64, 0xA2, 0x00, 0xF0, 0x33, 0x12, 0x06]);
    assert_eq!(&m.mem[RAM..RAM + 3], &[1, 0, 0]);
}

#[test]
fn two_bcds_in_one_program_both_work() {
    let rom = [0x60, 0x7B, 0xA2, 0x00, 0xF0, 0x33, 0x61, 0x2D, 0xA2, 0x10, 0xF1, 0x33, 0x12, 0x0C];
    let (m, _) = run(&rom);
    assert_eq!(&m.mem[RAM..RAM + 3], &[1, 2, 3]);
    assert_eq!(&m.mem[RAM + 0x10..RAM + 0x13], &[0, 4, 5]);
}

#[test]
fn registers_are_stored_and_loaded_as_a_block() {
    let rom = [
        0x60, 0x11, 0x61, 0x22, 0x62, 0x33, 0xA2, 0x40, // V0..V2, I = 0x240
        0xF1, 0x55, // store V0..V1
        0x60, 0x00, 0x61, 0x00, 0x62, 0x00, // clear
        0xF1, 0x65, // load V0..V1
        0x12, 0x12,
    ];
    let (m, _) = run(&rom);
    assert_eq!(&m.mem[RAM + 0x40..RAM + 0x43], &[0x11, 0x22, 0xEE]);
    assert_eq!(&m.mem[V0..V0 + 3], &[0x11, 0x22, 0x00]);
    // I is not advanced.
    assert_eq!(&m.mem[I_REG..I_REG + 2], &[0x40, 0x02]);
}

#[test]
fn call_stores_the_return_address_and_enters_the_subroutine() {
    // CALL 0x204; the subroutine sets V0 and parks.
    let (m, c) = run(&[0x22, 0x04, 0x60, 0x00, 0x60, 0x42, 0x12, 0x06]);
    assert!(parked_at(&m, &c, 0x206));
    assert_eq!(m.mem[V0], 0x42);
    assert_eq!(m.mem[SP_REG], 1);
    assert_eq!(&m.mem[STACK..STACK + 2], &[0x02, 0x02]);
}

#[test]
fn ret_pops_the_stored_address_and_dispatches_to_it() {
    // CALL 0x206; the subroutine sets V0 and returns. The address stored
    // by CALL is the CHIP-8 address 0x202, and that is where RET sends the
    // Z80.
    let rom = [0x22, 0x06, 0x12, 0x00, 0x00, 0x00, 0x60, 0x42, 0x00, 0xEE];
    let m = run_until(&rom, 0x0202);
    assert_eq!(m.mem[V0], 0x42);
    assert_eq!(m.mem[SP_REG], 0);
    assert_eq!(&m.mem[STACK..STACK + 2], &[0x02, 0x02]);
    // RET leaves the I register alone.
    assert_eq!(&m.mem[I_REG..I_REG + 2], &[0x00, 0x00]);
}

#[test]
fn nested_calls_use_successive_stack_slots() {
    let rom = [0x22, 0x04, 0x60, 0x00, 0x22, 0x08, 0x60, 0x00, 0x12, 0x08];
    let (m, _) = run(&rom);
    assert_eq!(m.mem[SP_REG], 2);
    assert_eq!(&m.mem[STACK..STACK + 4], &[0x02, 0x02, 0x06, 0x02]);
}

#[test]
fn jp_v0_dispatches_to_v0_plus_nnn() {
    let m = run_until(&[0x60, 0x10, 0xB3, 0x00], 0x0310);
    assert_eq!(m.mem[V0], 0x10);
}

#[test]
fn wait_key_takes_the_first_hex_digit() {
    let (m, _) = run_with_keys(&[0xF3, 0x0A, 0x12, 0x02], b"xz\rc9");
    assert_eq!(m.mem[V0 + 3], 0x0C);
    assert_eq!(m.keys.len(), 1);
}

#[test]
fn wait_key_maps_digits_and_both_cases() {
    for (key, value) in [(b'0', 0u8), (b'9', 9), (b'a', 10), (b'f', 15), (b'A', 10), (b'F', 15)] {
        let (m, _) = run_with_keys(&[0xF0, 0x0A, 0x12, 0x02], &[b'g', b'G', b'/', b':', b'@', b'`', key]);
        assert_eq!(m.mem[V0], value);
    }
}

#[test]
fn skp_skips_when_the_key_waiting_is_vx() {
    let rom = [0x60, 0x0B, 0xE0, 0x9E, 0x61, 0x11, 0x12, 0x06];
    let (m, _) = run_with_keys(&rom, b"b");
    assert_eq!(m.mem[V0 + 1], 0x00);
    let (m, _) = run_with_keys(&rom, b"c");
    assert_eq!(m.mem[V0 + 1], 0x11);
}

#[test]
fn sknp_skips_when_the_key_waiting_is_not_vx() {
    let rom = [0x60, 0x0B, 0xE0, 0xA1, 0x61, 0x11, 0x12, 0x06];
    let (m, _) = run_with_keys(&rom, b"b");
    assert_eq!(m.mem[V0 + 1], 0x11);
    let (m, _) = run_with_keys(&rom, b"c");
    assert_eq!(m.mem[V0 + 1], 0x00);
}

#[test]
fn rnd_masks_the_random_byte() {
    let rom = [0xC0, 0x0F, 0xC1, 0x00, 0xC2, 0xFF, 0xC3, 0xFF, 0x12, 0x08];
    let (m, _) = run(&rom);
    assert!(m.mem[V0] <= 0x0F);
    assert_eq!(m.mem[V0 + 1], 0x00);
    assert_ne!(&m.mem[RNG..RNG + 2], &[0xAC, 0xE1]);
    assert_ne!(m.mem[V0 + 2], m.mem[V0 + 3]);
}

#[test]
fn random_generator_visits_every_nonzero_state_once() {
    let mut compiler = Compiler::new();
    let image = compiler.compile(&[0x12, 0x00]).unwrap();
    let rng = compiler.lookup(Label::Routine(Routine::Rng)).unwrap() as u16;
    let mut m = Machine::new(&image);
    m.run();
    let seed = [m.mem[RNG], m.mem[RNG + 1]];
    assert_eq!(seed, [0xAC, 0xE1]);
    let mut seen = vec![false; 0x10000];
    for round in 1..=65535u32 {
        // Call the routine with a return address at which the machine parks.
        m.sp = 0x0000;
        m.push(0x0000);
        m.pc = rng;
        while m.pc != 0x0000 {
            assert!(m.step());
        }
        let state = (m.mem[RNG + 1] as usize) << 8 | m.mem[RNG] as usize;
        assert_ne!(state, 0);
        assert!(!seen[state], "state {:04X} came twice", state);
        seen[state] = true;
        assert_eq!(m.a, m.mem[RNG]);
        assert_eq!([m.mem[RNG], m.mem[RNG + 1]] == seed, round == 65535);
    }
}

#[test]
fn random_generator_steps_by_xorshift() {
    let rom = [0xC0, 0xFF, 0xC1, 0xFF, 0x12, 0x04];
    let (m, _) = run(&rom);
    let mut x: u16 = 0xE1AC;
    let mut bytes = Vec::new();
    for _ in 0..2 {
        x ^= x << 7;
        x ^= x >> 9;
        x ^= x << 8;
        bytes.push(x as u8);
    }
    assert_eq!(&m.mem[V0..V0 + 2], &bytes[..]);
}

#[test]
fn polling_without_a_key_answers_zero() {
    // With nothing waiting the poll gives 0, which SKP takes for key 0.
    let rom = [0x60, 0x00, 0xE0, 0x9E, 0x61, 0x11, 0xF2, 0x0A, 0x12, 0x08];
    let (m, _) = run(&rom);
    assert_eq!(m.mem[V0 + 1], 0x00);
    assert_eq!(m.mem[V0 + 2], 0x00);
}

#[test]
fn cls_clears_what_was_drawn() {
    let rom = [0x60, 0x00, 0xF0, 0x29, 0xD0, 0x05, 0x00, 0xE0, 0x12, 0x08];
    let (m, _) = run(&rom);
    assert!(screen(&m).iter().all(|b| *b == 0));
}

#[test]
fn unknown_opcode_falls_through_to_the_next_instruction() {
    let (m, c) = run(&[0x50, 0x01, 0x60, 0x09, 0x12, 0x04]);
    assert_eq!(m.mem[V0], 0x09);
    assert!(parked_at(&m, &c, 0x204));
}
