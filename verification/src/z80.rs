//! Z80 instruction encodings: one emitter method for each instruction form
//! that the generated code uses.
//!
//! Branches are always emitted in their absolute three-byte form, so that
//! no branch-range pass is needed.

use crate::codegen::Compiler;
use crate::label::Label;
use vstd::prelude::*;

verus! {

impl Compiler {
    /// `JP label`.
    pub(crate) fn jp_label(&mut self, label: Label)
        requires
            old(self).wf(),
        ensures
            final(self).wf(),
            final(self)@ == old(self)@.byte(0xC3).refer(label),
    {
        self.emit(0xC3);
        self.emit_label_ref(label);
    }

    /// `JP Z, label`.
    pub(crate) fn jp_z_label(&mut self, label: Label)
        requires
            old(self).wf(),
        ensures
            final(self).wf(),
            final(self)@ == old(self)@.byte(0xCA).refer(label),
    {
        self.emit(0xCA);
        self.emit_label_ref(label);
    }

    /// `JP NZ, label`.
    pub(crate) fn jp_nz_label(&mut self, label: Label)
        requires
            old(self).wf(),
        ensures
            final(self).wf(),
            final(self)@ == old(self)@.byte(0xC2).refer(label),
    {
        self.emit(0xC2);
        self.emit_label_ref(label);
    }

    /// Unconditional branch, encoded as the absolute `JP label`.
    pub(crate) fn jr_label(&mut self, label: Label)
        requires
            old(self).wf(),
        ensures
            final(self).wf(),
            final(self)@ == old(self)@.byte(0xC3).refer(label),
    {
        self.jp_label(label);
    }

    /// Branch on zero, encoded as the absolute `JP Z, label`.
    pub(crate) fn jr_z(&mut self, label: Label)
        requires
            old(self).wf(),
        ensures
            final(self).wf(),
            final(self)@ == old(self)@.byte(0xCA).refer(label),
    {
        self.jp_z_label(label);
    }

    /// Branch on not zero, encoded as the absolute `JP NZ, label`.
    pub(crate) fn jr_nz(&mut self, label: Label)
        requires
            old(self).wf(),
        ensures
            final(self).wf(),
            final(self)@ == old(self)@.byte(0xC2).refer(label),
    {
        self.jp_nz_label(label);
    }

    /// Branch on carry, encoded as the absolute `JP C, label`.
    pub(crate) fn jr_c(&mut self, label: Label)
        requires
            old(self).wf(),
        ensures
            final(self).wf(),
            final(self)@ == old(self)@.byte(0xDA).refer(label),
    {
        self.emit(0xDA);
        self.emit_label_ref(label);
    }

    /// Branch on no carry, encoded as the absolute `JP NC, label`.
    pub(crate) fn jr_nc(&mut self, label: Label)
        requires
            old(self).wf(),
        ensures
            final(self).wf(),
            final(self)@ == old(self)@.byte(0xD2).refer(label),
    {
        self.emit(0xD2);
        self.emit_label_ref(label);
    }

    /// `CALL label`.
    pub(crate) fn call_label(&mut self, label: Label)
        requires
            old(self).wf(),
        ensures
            final(self).wf(),
            final(self)@ == old(self)@.byte(0xCD).refer(label),
    {
        self.emit(0xCD);
        self.emit_label_ref(label);
    }

    /// `RET`.
    pub(crate) fn ret(&mut self)
        requires
            old(self).wf(),
        ensures
            final(self).wf(),
            final(self)@ == old(self)@.byte(0xC9),
    {
        self.emit(0xC9);
    }

    /// `RET Z`.
    pub(crate) fn ret_z(&mut self)
        requires
            old(self).wf(),
        ensures
            final(self).wf(),
            final(self)@ == old(self)@.byte(0xC8),
    {
        self.emit(0xC8);
    }

    /// `LD HL, nn`.
    pub(crate) fn ld_hl_nn(&mut self, nn: u16)
        requires
            old(self).wf(),
        ensures
            final(self).wf(),
            final(self)@ == old(self)@.byte(0x21).word(nn),
    {
        self.emit(0x21);
        self.emit16(nn);
    }

    /// `LD DE, nn`.
    pub(crate) fn ld_de_nn(&mut self, nn: u16)
        requires
            old(self).wf(),
        ensures
            final(self).wf(),
            final(self)@ == old(self)@.byte(0x11).word(nn),
    {
        self.emit(0x11);
        self.emit16(nn);
    }

    /// `LD BC, nn`.
    pub(crate) fn ld_bc_nn(&mut self, nn: u16)
        requires
            old(self).wf(),
        ensures
            final(self).wf(),
            final(self)@ == old(self)@.byte(0x01).word(nn),
    {
        self.emit(0x01);
        self.emit16(nn);
    }

    /// `LD HL, label`.
    pub(crate) fn ld_hl_label(&mut self, label: Label)
        requires
            old(self).wf(),
        ensures
            final(self).wf(),
            final(self)@ == old(self)@.byte(0x21).refer(label),
    {
        self.emit(0x21);
        self.emit_label_ref(label);
    }

    /// `LD A, n`.
    pub(crate) fn ld_a_n(&mut self, n: u8)
        requires
            old(self).wf(),
        ensures
            final(self).wf(),
            final(self)@ == old(self)@.byte(0x3E).byte(n),
    {
        self.emit(0x3E);
        self.emit(n);
    }

    /// `LD B, n`.
    pub(crate) fn ld_b_n(&mut self, n: u8)
        requires
            old(self).wf(),
        ensures
            final(self).wf(),
            final(self)@ == old(self)@.byte(0x06).byte(n),
    {
        self.emit(0x06);
        self.emit(n);
    }

    /// `LD D, n`.
    pub(crate) fn ld_d_n(&mut self, n: u8)
        requires
            old(self).wf(),
        ensures
            final(self).wf(),
            final(self)@ == old(self)@.byte(0x16).byte(n),
    {
        self.emit(0x16);
        self.emit(n);
    }

    /// `LD E, n`.
    pub(crate) fn ld_e_n(&mut self, n: u8)
        requires
            old(self).wf(),
        ensures
            final(self).wf(),
            final(self)@ == old(self)@.byte(0x1E).byte(n),
    {
        self.emit(0x1E);
        self.emit(n);
    }

    /// `LD H, n`.
    pub(crate) fn ld_h_n(&mut self, n: u8)
        requires
            old(self).wf(),
        ensures
            final(self).wf(),
            final(self)@ == old(self)@.byte(0x26).byte(n),
    {
        self.emit(0x26);
        self.emit(n);
    }

    /// `LD A, (HL)`.
    pub(crate) fn ld_a_hl(&mut self)
        requires
            old(self).wf(),
        ensures
            final(self).wf(),
            final(self)@ == old(self)@.byte(0x7E),
    {
        self.emit(0x7E);
    }

    /// `LD (HL), A`.
    pub(crate) fn ld_hl_a(&mut self)
        requires
            old(self).wf(),
        ensures
            final(self).wf(),
            final(self)@ == old(self)@.byte(0x77),
    {
        self.emit(0x77);
    }

    /// `LD (DE), A`.
    pub(crate) fn ld_de_a(&mut self)
        requires
            old(self).wf(),
        ensures
            final(self).wf(),
            final(self)@ == old(self)@.byte(0x12),
    {
        self.emit(0x12);
    }

    /// `LD A, B`.
    pub(crate) fn ld_a_b(&mut self)
        requires
            old(self).wf(),
        ensures
            final(self).wf(),
            final(self)@ == old(self)@.byte(0x78),
    {
        self.emit(0x78);
    }

    /// `LD A, C`.
    pub(crate) fn ld_a_c(&mut self)
        requires
            old(self).wf(),
        ensures
            final(self).wf(),
            final(self)@ == old(self)@.byte(0x79),
    {
        self.emit(0x79);
    }

    /// `LD A, D`.
    pub(crate) fn ld_a_d(&mut self)
        requires
            old(self).wf(),
        ensures
            final(self).wf(),
            final(self)@ == old(self)@.byte(0x7A),
    {
        self.emit(0x7A);
    }

    /// `LD A, E`.
    pub(crate) fn ld_a_e(&mut self)
        requires
            old(self).wf(),
        ensures
            final(self).wf(),
            final(self)@ == old(self)@.byte(0x7B),
    {
        self.emit(0x7B);
    }

    /// `LD A, L`.
    pub(crate) fn ld_a_l(&mut self)
        requires
            old(self).wf(),
        ensures
            final(self).wf(),
            final(self)@ == old(self)@.byte(0x7D),
    {
        self.emit(0x7D);
    }

    /// `LD A, H`.
    pub(crate) fn ld_a_h(&mut self)
        requires
            old(self).wf(),
        ensures
            final(self).wf(),
            final(self)@ == old(self)@.byte(0x7C),
    {
        self.emit(0x7C);
    }

    /// `LD L, A`.
    pub(crate) fn ld_l_a(&mut self)
        requires
            old(self).wf(),
        ensures
            final(self).wf(),
            final(self)@ == old(self)@.byte(0x6F),
    {
        self.emit(0x6F);
    }

    /// `LD H, A`.
    pub(crate) fn ld_h_a(&mut self)
        requires
            old(self).wf(),
        ensures
            final(self).wf(),
            final(self)@ == old(self)@.byte(0x67),
    {
        self.emit(0x67);
    }

    /// `LD E, A`.
    pub(crate) fn ld_e_a(&mut self)
        requires
            old(self).wf(),
        ensures
            final(self).wf(),
            final(self)@ == old(self)@.byte(0x5F),
    {
        self.emit(0x5F);
    }

    /// `LD D, A`.
    pub(crate) fn ld_d_a(&mut self)
        requires
            old(self).wf(),
        ensures
            final(self).wf(),
            final(self)@ == old(self)@.byte(0x57),
    {
        self.emit(0x57);
    }

    /// `LD C, A`.
    pub(crate) fn ld_c_a(&mut self)
        requires
            old(self).wf(),
        ensures
            final(self).wf(),
            final(self)@ == old(self)@.byte(0x4F),
    {
        self.emit(0x4F);
    }

    /// `LD E, (HL)`.
    pub(crate) fn ld_e_hl(&mut self)
        requires
            old(self).wf(),
        ensures
            final(self).wf(),
            final(self)@ == old(self)@.byte(0x5E),
    {
        self.emit(0x5E);
    }

    /// `LD D, (HL)`.
    pub(crate) fn ld_d_hl(&mut self)
        requires
            old(self).wf(),
        ensures
            final(self).wf(),
            final(self)@ == old(self)@.byte(0x56),
    {
        self.emit(0x56);
    }

    /// `LD H, (HL)`.
    pub(crate) fn ld_h_hl(&mut self)
        requires
            old(self).wf(),
        ensures
            final(self).wf(),
            final(self)@ == old(self)@.byte(0x66),
    {
        self.emit(0x66);
    }

    /// `LD A, (addr)`.
    pub(crate) fn ld_a_mem(&mut self, addr: u16)
        requires
            old(self).wf(),
        ensures
            final(self).wf(),
            final(self)@ == old(self)@.byte(0x3A).word(addr),
    {
        self.emit(0x3A);
        self.emit16(addr);
    }

    /// `LD (addr), A`.
    pub(crate) fn ld_mem_a(&mut self, addr: u16)
        requires
            old(self).wf(),
        ensures
            final(self).wf(),
            final(self)@ == old(self)@.byte(0x32).word(addr),
    {
        self.emit(0x32);
        self.emit16(addr);
    }

    /// `INC HL`.
    pub(crate) fn inc_hl(&mut self)
        requires
            old(self).wf(),
        ensures
            final(self).wf(),
            final(self)@ == old(self)@.byte(0x23),
    {
        self.emit(0x23);
    }

    /// `INC DE`.
    pub(crate) fn inc_de(&mut self)
        requires
            old(self).wf(),
        ensures
            final(self).wf(),
            final(self)@ == old(self)@.byte(0x13),
    {
        self.emit(0x13);
    }

    /// `INC B`.
    pub(crate) fn inc_b(&mut self)
        requires
            old(self).wf(),
        ensures
            final(self).wf(),
            final(self)@ == old(self)@.byte(0x04),
    {
        self.emit(0x04);
    }

    /// `INC (HL)`.
    pub(crate) fn inc_hl_ind(&mut self)
        requires
            old(self).wf(),
        ensures
            final(self).wf(),
            final(self)@ == old(self)@.byte(0x34),
    {
        self.emit(0x34);
    }

    /// `DEC A`.
    pub(crate) fn dec_a(&mut self)
        requires
            old(self).wf(),
        ensures
            final(self).wf(),
            final(self)@ == old(self)@.byte(0x3D),
    {
        self.emit(0x3D);
    }

    /// `DEC B`.
    pub(crate) fn dec_b(&mut self)
        requires
            old(self).wf(),
        ensures
            final(self).wf(),
            final(self)@ == old(self)@.byte(0x05),
    {
        self.emit(0x05);
    }

    /// `DEC D`.
    pub(crate) fn dec_d(&mut self)
        requires
            old(self).wf(),
        ensures
            final(self).wf(),
            final(self)@ == old(self)@.byte(0x15),
    {
        self.emit(0x15);
    }

    /// `DEC E`.
    pub(crate) fn dec_e(&mut self)
        requires
            old(self).wf(),
        ensures
            final(self).wf(),
            final(self)@ == old(self)@.byte(0x1D),
    {
        self.emit(0x1D);
    }

    /// `DEC BC`.
    pub(crate) fn dec_bc(&mut self)
        requires
            old(self).wf(),
        ensures
            final(self).wf(),
            final(self)@ == old(self)@.byte(0x0B),
    {
        self.emit(0x0B);
    }

    /// `ADD HL, DE`.
    pub(crate) fn add_hl_de(&mut self)
        requires
            old(self).wf(),
        ensures
            final(self).wf(),
            final(self)@ == old(self)@.byte(0x19),
    {
        self.emit(0x19);
    }

    /// `ADD HL, HL`.
    pub(crate) fn add_hl_hl(&mut self)
        requires
            old(self).wf(),
        ensures
            final(self).wf(),
            final(self)@ == old(self)@.byte(0x29),
    {
        self.emit(0x29);
    }

    /// `ADD A, n`.
    pub(crate) fn add_a_n(&mut self, n: u8)
        requires
            old(self).wf(),
        ensures
            final(self).wf(),
            final(self)@ == old(self)@.byte(0xC6).byte(n),
    {
        self.emit(0xC6);
        self.emit(n);
    }

    /// `ADD A, (HL)`.
    pub(crate) fn add_a_hl(&mut self)
        requires
            old(self).wf(),
        ensures
            final(self).wf(),
            final(self)@ == old(self)@.byte(0x86),
    {
        self.emit(0x86);
    }

    /// `ADC A, n`.
    pub(crate) fn adc_a_n(&mut self, n: u8)
        requires
            old(self).wf(),
        ensures
            final(self).wf(),
            final(self)@ == old(self)@.byte(0xCE).byte(n),
    {
        self.emit(0xCE);
        self.emit(n);
    }

    /// `SBC HL, DE`.
    pub(crate) fn sbc_hl_de(&mut self)
        requires
            old(self).wf(),
        ensures
            final(self).wf(),
            final(self)@ == old(self)@.byte(0xED).byte(0x52),
    {
        self.emit(0xED);
        self.emit(0x52);
    }

    /// `SUB n`.
    pub(crate) fn sub_n(&mut self, n: u8)
        requires
            old(self).wf(),
        ensures
            final(self).wf(),
            final(self)@ == old(self)@.byte(0xD6).byte(n),
    {
        self.emit(0xD6);
        self.emit(n);
    }

    /// `SUB (HL)`.
    pub(crate) fn sub_hl(&mut self)
        requires
            old(self).wf(),
        ensures
            final(self).wf(),
            final(self)@ == old(self)@.byte(0x96),
    {
        self.emit(0x96);
    }

    /// `AND n`.
    pub(crate) fn and_n(&mut self, n: u8)
        requires
            old(self).wf(),
        ensures
            final(self).wf(),
            final(self)@ == old(self)@.byte(0xE6).byte(n),
    {
        self.emit(0xE6);
        self.emit(n);
    }

    /// `AND E`.
    pub(crate) fn and_a_e(&mut self)
        requires
            old(self).wf(),
        ensures
            final(self).wf(),
            final(self)@ == old(self)@.byte(0xA3),
    {
        self.emit(0xA3);
    }

    /// `AND (HL)`.
    pub(crate) fn and_hl(&mut self)
        requires
            old(self).wf(),
        ensures
            final(self).wf(),
            final(self)@ == old(self)@.byte(0xA6),
    {
        self.emit(0xA6);
    }

    /// `OR A`.
    pub(crate) fn or_a(&mut self)
        requires
            old(self).wf(),
        ensures
            final(self).wf(),
            final(self)@ == old(self)@.byte(0xB7),
    {
        self.emit(0xB7);
    }

    /// `OR C`.
    pub(crate) fn or_c(&mut self)
        requires
            old(self).wf(),
        ensures
            final(self).wf(),
            final(self)@ == old(self)@.byte(0xB1),
    {
        self.emit(0xB1);
    }

    /// `OR (HL)`.
    pub(crate) fn or_hl(&mut self)
        requires
            old(self).wf(),
        ensures
            final(self).wf(),
            final(self)@ == old(self)@.byte(0xB6),
    {
        self.emit(0xB6);
    }

    /// `XOR A`.
    pub(crate) fn xor_a(&mut self)
        requires
            old(self).wf(),
        ensures
            final(self).wf(),
            final(self)@ == old(self)@.byte(0xAF),
    {
        self.emit(0xAF);
    }

    /// `XOR H`.
    pub(crate) fn xor_h(&mut self)
        requires
            old(self).wf(),
        ensures
            final(self).wf(),
            final(self)@ == old(self)@.byte(0xAC),
    {
        self.emit(0xAC);
    }

    /// `XOR L`.
    pub(crate) fn xor_l(&mut self)
        requires
            old(self).wf(),
        ensures
            final(self).wf(),
            final(self)@ == old(self)@.byte(0xAD),
    {
        self.emit(0xAD);
    }

    /// `RRA`.
    pub(crate) fn rra(&mut self)
        requires
            old(self).wf(),
        ensures
            final(self).wf(),
            final(self)@ == old(self)@.byte(0x1F),
    {
        self.emit(0x1F);
    }

    /// `XOR (HL)`.
    pub(crate) fn xor_hl(&mut self)
        requires
            old(self).wf(),
        ensures
            final(self).wf(),
            final(self)@ == old(self)@.byte(0xAE),
    {
        self.emit(0xAE);
    }

    /// `CP n`.
    pub(crate) fn cp_n(&mut self, n: u8)
        requires
            old(self).wf(),
        ensures
            final(self).wf(),
            final(self)@ == old(self)@.byte(0xFE).byte(n),
    {
        self.emit(0xFE);
        self.emit(n);
    }

    /// `CP (HL)`.
    pub(crate) fn cp_hl(&mut self)
        requires
            old(self).wf(),
        ensures
            final(self).wf(),
            final(self)@ == old(self)@.byte(0xBE),
    {
        self.emit(0xBE);
    }

    /// `PUSH AF`.
    pub(crate) fn push_af(&mut self)
        requires
            old(self).wf(),
        ensures
            final(self).wf(),
            final(self)@ == old(self)@.byte(0xF5),
    {
        self.emit(0xF5);
    }

    /// `PUSH HL`.
    pub(crate) fn push_hl(&mut self)
        requires
            old(self).wf(),
        ensures
            final(self).wf(),
            final(self)@ == old(self)@.byte(0xE5),
    {
        self.emit(0xE5);
    }

    /// `PUSH DE`.
    pub(crate) fn push_de(&mut self)
        requires
            old(self).wf(),
        ensures
            final(self).wf(),
            final(self)@ == old(self)@.byte(0xD5),
    {
        self.emit(0xD5);
    }

    /// `POP AF`.
    pub(crate) fn pop_af(&mut self)
        requires
            old(self).wf(),
        ensures
            final(self).wf(),
            final(self)@ == old(self)@.byte(0xF1),
    {
        self.emit(0xF1);
    }

    /// `POP HL`.
    pub(crate) fn pop_hl(&mut self)
        requires
            old(self).wf(),
        ensures
            final(self).wf(),
            final(self)@ == old(self)@.byte(0xE1),
    {
        self.emit(0xE1);
    }

    /// `POP DE`.
    pub(crate) fn pop_de(&mut self)
        requires
            old(self).wf(),
        ensures
            final(self).wf(),
            final(self)@ == old(self)@.byte(0xD1),
    {
        self.emit(0xD1);
    }

    /// `EX DE, HL`.
    pub(crate) fn ex_de_hl(&mut self)
        requires
            old(self).wf(),
        ensures
            final(self).wf(),
            final(self)@ == old(self)@.byte(0xEB),
    {
        self.emit(0xEB);
    }

    /// `OUT (port), A`.
    pub(crate) fn out_n_a(&mut self, port: u8)
        requires
            old(self).wf(),
        ensures
            final(self).wf(),
            final(self)@ == old(self)@.byte(0xD3).byte(port),
    {
        self.emit(0xD3);
        self.emit(port);
    }

    /// `IN A, (port)`.
    pub(crate) fn in_a_n(&mut self, port: u8)
        requires
            old(self).wf(),
        ensures
            final(self).wf(),
            final(self)@ == old(self)@.byte(0xDB).byte(port),
    {
        self.emit(0xDB);
        self.emit(port);
    }

    /// `RLC A`.
    pub(crate) fn rlc_a(&mut self)
        requires
            old(self).wf(),
        ensures
            final(self).wf(),
            final(self)@ == old(self)@.byte(0xCB).byte(0x07),
    {
        self.emit(0xCB);
        self.emit(0x07);
    }

    /// `SRL A`.
    pub(crate) fn srl_a(&mut self)
        requires
            old(self).wf(),
        ensures
            final(self).wf(),
            final(self)@ == old(self)@.byte(0xCB).byte(0x3F),
    {
        self.emit(0xCB);
        self.emit(0x3F);
    }

    /// `SLA A`.
    pub(crate) fn sla_a(&mut self)
        requires
            old(self).wf(),
        ensures
            final(self).wf(),
            final(self)@ == old(self)@.byte(0xCB).byte(0x27),
    {
        self.emit(0xCB);
        self.emit(0x27);
    }

    /// `LD SP, nn`.
    pub(crate) fn ld_sp_nn(&mut self, nn: u16)
        requires
            old(self).wf(),
        ensures
            final(self).wf(),
            final(self)@ == old(self)@.byte(0x31).word(nn),
    {
        self.emit(0x31);
        self.emit16(nn);
    }

    /// `HALT`.
    pub(crate) fn halt(&mut self)
        requires
            old(self).wf(),
        ensures
            final(self).wf(),
            final(self)@ == old(self)@.byte(0x76),
    {
        self.emit(0x76);
    }
}

} // verus!
