use vstd::prelude::*;
use super::{
    add2, add_hl_regs, add_regs, add_sp_flags, and_regs, at_hl, cp_regs, daa_regs, dec16, dec_flags,
    dec_value, imm16, imm8, inc16, inc_flags, inc_value, make_flags, offset16, or_regs, out_left,
    out_right, pc1, pc2, pushed, rl_value, rlc_value, rr_value, rrc_value, same_control, sub2,
    sub_regs, with_regs, xor_regs, Cpu, CycleType,
};
use crate::memory::{word_value, word_written, write_word, Memory};
use crate::mmu::MemoryManagementUnit;
use crate::registers::{flags_of, has_flag, high, low, Registers, C_FLAG, H_FLAG, N_FLAG, Z_FLAG};

verus! {

// The primary instructions. (X) stands for the byte stored at address X.
impl<M: Memory + MemoryManagementUnit> Cpu<M> {
    /// No operation.
    pub fn NOP(&mut self) -> (r: CycleType)
        ensures
            r == 1,
            *final(self) == *old(self),
    {
        1
    }

    /// STOP: the speed switch and the low-power mode are not modelled; it acts as NOP.
    pub fn STOP(&mut self) -> (r: CycleType)
        ensures
            r == 1,
            *final(self) == *old(self),
    {
        1
    }

    /// HALT: stop until an interrupt is requested, noting the current IF.
    pub fn HALT(&mut self) -> (r: CycleType)
        ensures
            r == 1,
            *final(self) == (Cpu { halted: true, if_reg_before_halt: old(self).mem.read_value(0xFF0F), ..*old(self) }),
    {
        self.if_reg_before_halt = self.mem.interrupt_flag();
        self.halted = true;
        1
    }

    /// Disable interrupts.
    pub fn DI(&mut self) -> (r: CycleType)
        ensures
            r == 1,
            *final(self) == (Cpu { ime: false, ..*old(self) }),
    {
        self.ime = false;
        1
    }

    /// Enable interrupts.
    pub fn EI(&mut self) -> (r: CycleType)
        ensures
            r == 1,
            *final(self) == (Cpu { ime: true, ..*old(self) }),
    {
        self.ime = true;
        1
    }

    /// Set the carry flag, clearing N and H.
    pub fn SCF(&mut self) -> (r: CycleType)
        ensures
            r == 1,
            *final(self) == with_regs(*old(self), Registers { f: flags_of(has_flag(old(self).regs.f, Z_FLAG), false, false, true), ..old(self).regs }),
    {
        let z = self.regs.flag(Z_FLAG);
        self.regs.f = make_flags(z, false, false, true);
        1
    }

    /// Complement the carry flag, clearing N and H.
    pub fn CCF(&mut self) -> (r: CycleType)
        ensures
            r == 1,
            *final(self) == with_regs(*old(self), Registers { f: flags_of(has_flag(old(self).regs.f, Z_FLAG), false, false, !has_flag(old(self).regs.f, C_FLAG)), ..old(self).regs }),
    {
        let z = self.regs.flag(Z_FLAG);
        let c = self.regs.flag(C_FLAG);
        self.regs.f = make_flags(z, false, false, !c);
        1
    }

    /// LD r, r': copy a register into another.
    pub fn LD_rr_bb(&mut self) -> (r: CycleType)
        ensures
            r == 1,
            *final(self) == with_regs(*old(self), Registers { b: old(self).regs.b, ..old(self).regs }),
    {
        self.regs.b = self.regs.b;
        1
    }

    pub fn LD_rr_bc(&mut self) -> (r: CycleType)
        ensures
            r == 1,
            *final(self) == with_regs(*old(self), Registers { b: old(self).regs.c, ..old(self).regs }),
    {
        self.regs.b = self.regs.c;
        1
    }

    pub fn LD_rr_bd(&mut self) -> (r: CycleType)
        ensures
            r == 1,
            *final(self) == with_regs(*old(self), Registers { b: old(self).regs.d, ..old(self).regs }),
    {
        self.regs.b = self.regs.d;
        1
    }

    pub fn LD_rr_be(&mut self) -> (r: CycleType)
        ensures
            r == 1,
            *final(self) == with_regs(*old(self), Registers { b: old(self).regs.e, ..old(self).regs }),
    {
        self.regs.b = self.regs.e;
        1
    }

    pub fn LD_rr_bh(&mut self) -> (r: CycleType)
        ensures
            r == 1,
            *final(self) == with_regs(*old(self), Registers { b: old(self).regs.h, ..old(self).regs }),
    {
        self.regs.b = self.regs.h;
        1
    }

    pub fn LD_rr_bl(&mut self) -> (r: CycleType)
        ensures
            r == 1,
            *final(self) == with_regs(*old(self), Registers { b: old(self).regs.l, ..old(self).regs }),
    {
        self.regs.b = self.regs.l;
        1
    }

    pub fn LD_rr_ba(&mut self) -> (r: CycleType)
        ensures
            r == 1,
            *final(self) == with_regs(*old(self), Registers { b: old(self).regs.a, ..old(self).regs }),
    {
        self.regs.b = self.regs.a;
        1
    }

    pub fn LD_rr_cb(&mut self) -> (r: CycleType)
        ensures
            r == 1,
            *final(self) == with_regs(*old(self), Registers { c: old(self).regs.b, ..old(self).regs }),
    {
        self.regs.c = self.regs.b;
        1
    }

    pub fn LD_rr_cc(&mut self) -> (r: CycleType)
        ensures
            r == 1,
            *final(self) == with_regs(*old(self), Registers { c: old(self).regs.c, ..old(self).regs }),
    {
        self.regs.c = self.regs.c;
        1
    }

    pub fn LD_rr_cd(&mut self) -> (r: CycleType)
        ensures
            r == 1,
            *final(self) == with_regs(*old(self), Registers { c: old(self).regs.d, ..old(self).regs }),
    {
        self.regs.c = self.regs.d;
        1
    }

    pub fn LD_rr_ce(&mut self) -> (r: CycleType)
        ensures
            r == 1,
            *final(self) == with_regs(*old(self), Registers { c: old(self).regs.e, ..old(self).regs }),
    {
        self.regs.c = self.regs.e;
        1
    }

    pub fn LD_rr_ch(&mut self) -> (r: CycleType)
        ensures
            r == 1,
            *final(self) == with_regs(*old(self), Registers { c: old(self).regs.h, ..old(self).regs }),
    {
        self.regs.c = self.regs.h;
        1
    }

    pub fn LD_rr_cl(&mut self) -> (r: CycleType)
        ensures
            r == 1,
            *final(self) == with_regs(*old(self), Registers { c: old(self).regs.l, ..old(self).regs }),
    {
        self.regs.c = self.regs.l;
        1
    }

    pub fn LD_rr_ca(&mut self) -> (r: CycleType)
        ensures
            r == 1,
            *final(self) == with_regs(*old(self), Registers { c: old(self).regs.a, ..old(self).regs }),
    {
        self.regs.c = self.regs.a;
        1
    }

    pub fn LD_rr_db(&mut self) -> (r: CycleType)
        ensures
            r == 1,
            *final(self) == with_regs(*old(self), Registers { d: old(self).regs.b, ..old(self).regs }),
    {
        self.regs.d = self.regs.b;
        1
    }

    pub fn LD_rr_dc(&mut self) -> (r: CycleType)
        ensures
            r == 1,
            *final(self) == with_regs(*old(self), Registers { d: old(self).regs.c, ..old(self).regs }),
    {
        self.regs.d = self.regs.c;
        1
    }

    pub fn LD_rr_dd(&mut self) -> (r: CycleType)
        ensures
            r == 1,
            *final(self) == with_regs(*old(self), Registers { d: old(self).regs.d, ..old(self).regs }),
    {
        self.regs.d = self.regs.d;
        1
    }

    pub fn LD_rr_de(&mut self) -> (r: CycleType)
        ensures
            r == 1,
            *final(self) == with_regs(*old(self), Registers { d: old(self).regs.e, ..old(self).regs }),
    {
        self.regs.d = self.regs.e;
        1
    }

    pub fn LD_rr_dh(&mut self) -> (r: CycleType)
        ensures
            r == 1,
            *final(self) == with_regs(*old(self), Registers { d: old(self).regs.h, ..old(self).regs }),
    {
        self.regs.d = self.regs.h;
        1
    }

    pub fn LD_rr_dl(&mut self) -> (r: CycleType)
        ensures
            r == 1,
            *final(self) == with_regs(*old(self), Registers { d: old(self).regs.l, ..old(self).regs }),
    {
        self.regs.d = self.regs.l;
        1
    }

    pub fn LD_rr_da(&mut self) -> (r: CycleType)
        ensures
            r == 1,
            *final(self) == with_regs(*old(self), Registers { d: old(self).regs.a, ..old(self).regs }),
    {
        self.regs.d = self.regs.a;
        1
    }

    pub fn LD_rr_eb(&mut self) -> (r: CycleType)
        ensures
            r == 1,
            *final(self) == with_regs(*old(self), Registers { e: old(self).regs.b, ..old(self).regs }),
    {
        self.regs.e = self.regs.b;
        1
    }

    pub fn LD_rr_ec(&mut self) -> (r: CycleType)
        ensures
            r == 1,
            *final(self) == with_regs(*old(self), Registers { e: old(self).regs.c, ..old(self).regs }),
    {
        self.regs.e = self.regs.c;
        1
    }

    pub fn LD_rr_ed(&mut self) -> (r: CycleType)
        ensures
            r == 1,
            *final(self) == with_regs(*old(self), Registers { e: old(self).regs.d, ..old(self).regs }),
    {
        self.regs.e = self.regs.d;
        1
    }

    pub fn LD_rr_ee(&mut self) -> (r: CycleType)
        ensures
            r == 1,
            *final(self) == with_regs(*old(self), Registers { e: old(self).regs.e, ..old(self).regs }),
    {
        self.regs.e = self.regs.e;
        1
    }

    pub fn LD_rr_eh(&mut self) -> (r: CycleType)
        ensures
            r == 1,
            *final(self) == with_regs(*old(self), Registers { e: old(self).regs.h, ..old(self).regs }),
    {
        self.regs.e = self.regs.h;
        1
    }

    pub fn LD_rr_el(&mut self) -> (r: CycleType)
        ensures
            r == 1,
            *final(self) == with_regs(*old(self), Registers { e: old(self).regs.l, ..old(self).regs }),
    {
        self.regs.e = self.regs.l;
        1
    }

    pub fn LD_rr_ea(&mut self) -> (r: CycleType)
        ensures
            r == 1,
            *final(self) == with_regs(*old(self), Registers { e: old(self).regs.a, ..old(self).regs }),
    {
        self.regs.e = self.regs.a;
        1
    }

    pub fn LD_rr_hb(&mut self) -> (r: CycleType)
        ensures
            r == 1,
            *final(self) == with_regs(*old(self), Registers { h: old(self).regs.b, ..old(self).regs }),
    {
        self.regs.h = self.regs.b;
        1
    }

    pub fn LD_rr_hc(&mut self) -> (r: CycleType)
        ensures
            r == 1,
            *final(self) == with_regs(*old(self), Registers { h: old(self).regs.c, ..old(self).regs }),
    {
        self.regs.h = self.regs.c;
        1
    }

    pub fn LD_rr_hd(&mut self) -> (r: CycleType)
        ensures
            r == 1,
            *final(self) == with_regs(*old(self), Registers { h: old(self).regs.d, ..old(self).regs }),
    {
        self.regs.h = self.regs.d;
        1
    }

    pub fn LD_rr_he(&mut self) -> (r: CycleType)
        ensures
            r == 1,
            *final(self) == with_regs(*old(self), Registers { h: old(self).regs.e, ..old(self).regs }),
    {
        self.regs.h = self.regs.e;
        1
    }

    pub fn LD_rr_hh(&mut self) -> (r: CycleType)
        ensures
            r == 1,
            *final(self) == with_regs(*old(self), Registers { h: old(self).regs.h, ..old(self).regs }),
    {
        self.regs.h = self.regs.h;
        1
    }

    pub fn LD_rr_hl(&mut self) -> (r: CycleType)
        ensures
            r == 1,
            *final(self) == with_regs(*old(self), Registers { h: old(self).regs.l, ..old(self).regs }),
    {
        self.regs.h = self.regs.l;
        1
    }

    pub fn LD_rr_ha(&mut self) -> (r: CycleType)
        ensures
            r == 1,
            *final(self) == with_regs(*old(self), Registers { h: old(self).regs.a, ..old(self).regs }),
    {
        self.regs.h = self.regs.a;
        1
    }

    pub fn LD_rr_lb(&mut self) -> (r: CycleType)
        ensures
            r == 1,
            *final(self) == with_regs(*old(self), Registers { l: old(self).regs.b, ..old(self).regs }),
    {
        self.regs.l = self.regs.b;
        1
    }

    pub fn LD_rr_lc(&mut self) -> (r: CycleType)
        ensures
            r == 1,
            *final(self) == with_regs(*old(self), Registers { l: old(self).regs.c, ..old(self).regs }),
    {
        self.regs.l = self.regs.c;
        1
    }

    pub fn LD_rr_ld(&mut self) -> (r: CycleType)
        ensures
            r == 1,
            *final(self) == with_regs(*old(self), Registers { l: old(self).regs.d, ..old(self).regs }),
    {
        self.regs.l = self.regs.d;
        1
    }

    pub fn LD_rr_le(&mut self) -> (r: CycleType)
        ensures
            r == 1,
            *final(self) == with_regs(*old(self), Registers { l: old(self).regs.e, ..old(self).regs }),
    {
        self.regs.l = self.regs.e;
        1
    }

    pub fn LD_rr_lh(&mut self) -> (r: CycleType)
        ensures
            r == 1,
            *final(self) == with_regs(*old(self), Registers { l: old(self).regs.h, ..old(self).regs }),
    {
        self.regs.l = self.regs.h;
        1
    }

    pub fn LD_rr_ll(&mut self) -> (r: CycleType)
        ensures
            r == 1,
            *final(self) == with_regs(*old(self), Registers { l: old(self).regs.l, ..old(self).regs }),
    {
        self.regs.l = self.regs.l;
        1
    }

    pub fn LD_rr_la(&mut self) -> (r: CycleType)
        ensures
            r == 1,
            *final(self) == with_regs(*old(self), Registers { l: old(self).regs.a, ..old(self).regs }),
    {
        self.regs.l = self.regs.a;
        1
    }

    pub fn LD_rr_ab(&mut self) -> (r: CycleType)
        ensures
            r == 1,
            *final(self) == with_regs(*old(self), Registers { a: old(self).regs.b, ..old(self).regs }),
    {
        self.regs.a = self.regs.b;
        1
    }

    pub fn LD_rr_ac(&mut self) -> (r: CycleType)
        ensures
            r == 1,
            *final(self) == with_regs(*old(self), Registers { a: old(self).regs.c, ..old(self).regs }),
    {
        self.regs.a = self.regs.c;
        1
    }

    pub fn LD_rr_ad(&mut self) -> (r: CycleType)
        ensures
            r == 1,
            *final(self) == with_regs(*old(self), Registers { a: old(self).regs.d, ..old(self).regs }),
    {
        self.regs.a = self.regs.d;
        1
    }

    pub fn LD_rr_ae(&mut self) -> (r: CycleType)
        ensures
            r == 1,
            *final(self) == with_regs(*old(self), Registers { a: old(self).regs.e, ..old(self).regs }),
    {
        self.regs.a = self.regs.e;
        1
    }

    pub fn LD_rr_ah(&mut self) -> (r: CycleType)
        ensures
            r == 1,
            *final(self) == with_regs(*old(self), Registers { a: old(self).regs.h, ..old(self).regs }),
    {
        self.regs.a = self.regs.h;
        1
    }

    pub fn LD_rr_al(&mut self) -> (r: CycleType)
        ensures
            r == 1,
            *final(self) == with_regs(*old(self), Registers { a: old(self).regs.l, ..old(self).regs }),
    {
        self.regs.a = self.regs.l;
        1
    }

    pub fn LD_rr_aa(&mut self) -> (r: CycleType)
        ensures
            r == 1,
            *final(self) == with_regs(*old(self), Registers { a: old(self).regs.a, ..old(self).regs }),
    {
        self.regs.a = self.regs.a;
        1
    }

    /// LD r, (HL): load the byte at HL.
    pub fn LD_r_HLm_b(&mut self) -> (r: CycleType)
        ensures
            r == 2,
            *final(self) == with_regs(*old(self), Registers { b: at_hl(*old(self)), ..old(self).regs }),
    {
        let hl = self.regs.hl();
        self.regs.b = self.mem.read_byte(hl);
        2
    }

    pub fn LD_r_HLm_c(&mut self) -> (r: CycleType)
        ensures
            r == 2,
            *final(self) == with_regs(*old(self), Registers { c: at_hl(*old(self)), ..old(self).regs }),
    {
        let hl = self.regs.hl();
        self.regs.c = self.mem.read_byte(hl);
        2
    }

    pub fn LD_r_HLm_d(&mut self) -> (r: CycleType)
        ensures
            r == 2,
            *final(self) == with_regs(*old(self), Registers { d: at_hl(*old(self)), ..old(self).regs }),
    {
        let hl = self.regs.hl();
        self.regs.d = self.mem.read_byte(hl);
        2
    }

    pub fn LD_r_HLm_e(&mut self) -> (r: CycleType)
        ensures
            r == 2,
            *final(self) == with_regs(*old(self), Registers { e: at_hl(*old(self)), ..old(self).regs }),
    {
        let hl = self.regs.hl();
        self.regs.e = self.mem.read_byte(hl);
        2
    }

    pub fn LD_r_HLm_h(&mut self) -> (r: CycleType)
        ensures
            r == 2,
            *final(self) == with_regs(*old(self), Registers { h: at_hl(*old(self)), ..old(self).regs }),
    {
        let hl = self.regs.hl();
        self.regs.h = self.mem.read_byte(hl);
        2
    }

    pub fn LD_r_HLm_l(&mut self) -> (r: CycleType)
        ensures
            r == 2,
            *final(self) == with_regs(*old(self), Registers { l: at_hl(*old(self)), ..old(self).regs }),
    {
        let hl = self.regs.hl();
        self.regs.l = self.mem.read_byte(hl);
        2
    }

    pub fn LD_r_HLm_a(&mut self) -> (r: CycleType)
        ensures
            r == 2,
            *final(self) == with_regs(*old(self), Registers { a: at_hl(*old(self)), ..old(self).regs }),
    {
        let hl = self.regs.hl();
        self.regs.a = self.mem.read_byte(hl);
        2
    }

    /// LD (HL), r: store a register at HL.
    pub fn LD_HLm_r_b(&mut self) -> (r: CycleType)
        ensures
            r == 2,
            final(self).regs == old(self).regs,
            old(self).mem.written(old(self).regs.spec_hl(), old(self).regs.b, final(self).mem),
            same_control(*old(self), *final(self)),
    {
        let hl = self.regs.hl();
        let v = self.regs.b;
        self.mem.write_byte(hl, v);
        2
    }

    pub fn LD_HLm_r_c(&mut self) -> (r: CycleType)
        ensures
            r == 2,
            final(self).regs == old(self).regs,
            old(self).mem.written(old(self).regs.spec_hl(), old(self).regs.c, final(self).mem),
            same_control(*old(self), *final(self)),
    {
        let hl = self.regs.hl();
        let v = self.regs.c;
        self.mem.write_byte(hl, v);
        2
    }

    pub fn LD_HLm_r_d(&mut self) -> (r: CycleType)
        ensures
            r == 2,
            final(self).regs == old(self).regs,
            old(self).mem.written(old(self).regs.spec_hl(), old(self).regs.d, final(self).mem),
            same_control(*old(self), *final(self)),
    {
        let hl = self.regs.hl();
        let v = self.regs.d;
        self.mem.write_byte(hl, v);
        2
    }

    pub fn LD_HLm_r_e(&mut self) -> (r: CycleType)
        ensures
            r == 2,
            final(self).regs == old(self).regs,
            old(self).mem.written(old(self).regs.spec_hl(), old(self).regs.e, final(self).mem),
            same_control(*old(self), *final(self)),
    {
        let hl = self.regs.hl();
        let v = self.regs.e;
        self.mem.write_byte(hl, v);
        2
    }

    pub fn LD_HLm_r_h(&mut self) -> (r: CycleType)
        ensures
            r == 2,
            final(self).regs == old(self).regs,
            old(self).mem.written(old(self).regs.spec_hl(), old(self).regs.h, final(self).mem),
            same_control(*old(self), *final(self)),
    {
        let hl = self.regs.hl();
        let v = self.regs.h;
        self.mem.write_byte(hl, v);
        2
    }

    pub fn LD_HLm_r_l(&mut self) -> (r: CycleType)
        ensures
            r == 2,
            final(self).regs == old(self).regs,
            old(self).mem.written(old(self).regs.spec_hl(), old(self).regs.l, final(self).mem),
            same_control(*old(self), *final(self)),
    {
        let hl = self.regs.hl();
        let v = self.regs.l;
        self.mem.write_byte(hl, v);
        2
    }

    pub fn LD_HLm_r_a(&mut self) -> (r: CycleType)
        ensures
            r == 2,
            final(self).regs == old(self).regs,
            old(self).mem.written(old(self).regs.spec_hl(), old(self).regs.a, final(self).mem),
            same_control(*old(self), *final(self)),
    {
        let hl = self.regs.hl();
        let v = self.regs.a;
        self.mem.write_byte(hl, v);
        2
    }

    /// LD r, n: load the immediate byte.
    pub fn LD_r_n_b(&mut self) -> (r: CycleType)
        ensures
            r == 2,
            *final(self) == with_regs(*old(self), Registers { b: imm8(*old(self)), pc: pc1(*old(self)), ..old(self).regs }),
    {
        let n = self.fetch_byte();
        self.regs.b = n;
        2
    }

    pub fn LD_r_n_c(&mut self) -> (r: CycleType)
        ensures
            r == 2,
            *final(self) == with_regs(*old(self), Registers { c: imm8(*old(self)), pc: pc1(*old(self)), ..old(self).regs }),
    {
        let n = self.fetch_byte();
        self.regs.c = n;
        2
    }

    pub fn LD_r_n_d(&mut self) -> (r: CycleType)
        ensures
            r == 2,
            *final(self) == with_regs(*old(self), Registers { d: imm8(*old(self)), pc: pc1(*old(self)), ..old(self).regs }),
    {
        let n = self.fetch_byte();
        self.regs.d = n;
        2
    }

    pub fn LD_r_n_e(&mut self) -> (r: CycleType)
        ensures
            r == 2,
            *final(self) == with_regs(*old(self), Registers { e: imm8(*old(self)), pc: pc1(*old(self)), ..old(self).regs }),
    {
        let n = self.fetch_byte();
        self.regs.e = n;
        2
    }

    pub fn LD_r_n_h(&mut self) -> (r: CycleType)
        ensures
            r == 2,
            *final(self) == with_regs(*old(self), Registers { h: imm8(*old(self)), pc: pc1(*old(self)), ..old(self).regs }),
    {
        let n = self.fetch_byte();
        self.regs.h = n;
        2
    }

    pub fn LD_r_n_l(&mut self) -> (r: CycleType)
        ensures
            r == 2,
            *final(self) == with_regs(*old(self), Registers { l: imm8(*old(self)), pc: pc1(*old(self)), ..old(self).regs }),
    {
        let n = self.fetch_byte();
        self.regs.l = n;
        2
    }

    pub fn LD_r_n_a(&mut self) -> (r: CycleType)
        ensures
            r == 2,
            *final(self) == with_regs(*old(self), Registers { a: imm8(*old(self)), pc: pc1(*old(self)), ..old(self).regs }),
    {
        let n = self.fetch_byte();
        self.regs.a = n;
        2
    }

    /// LD (HL), n: store the immediate byte at HL.
    pub fn LD_HLm_n(&mut self) -> (r: CycleType)
        ensures
            r == 3,
            final(self).regs == (Registers { pc: pc1(*old(self)), ..old(self).regs }),
            old(self).mem.written(old(self).regs.spec_hl(), imm8(*old(self)), final(self).mem),
            same_control(*old(self), *final(self)),
    {
        let n = self.fetch_byte();
        let hl = self.regs.hl();
        self.mem.write_byte(hl, n);
        3
    }

    /// LD (BC), A.
    pub fn LD_BCm_A(&mut self) -> (r: CycleType)
        ensures
            r == 2,
            final(self).regs == old(self).regs,
            old(self).mem.written(old(self).regs.spec_bc(), old(self).regs.a, final(self).mem),
            same_control(*old(self), *final(self)),
    {
        let addr = self.regs.bc();
        let a = self.regs.a;
        self.mem.write_byte(addr, a);
        2
    }

    /// LD (DE), A.
    pub fn LD_DEm_A(&mut self) -> (r: CycleType)
        ensures
            r == 2,
            final(self).regs == old(self).regs,
            old(self).mem.written(old(self).regs.spec_de(), old(self).regs.a, final(self).mem),
            same_control(*old(self), *final(self)),
    {
        let addr = self.regs.de();
        let a = self.regs.a;
        self.mem.write_byte(addr, a);
        2
    }

    /// LD A, (BC).
    pub fn LD_A_BCm(&mut self) -> (r: CycleType)
        ensures
            r == 2,
            *final(self) == with_regs(*old(self), Registers { a: old(self).mem.read_value(old(self).regs.spec_bc()), ..old(self).regs }),
    {
        let addr = self.regs.bc();
        self.regs.a = self.mem.read_byte(addr);
        2
    }

    /// LD A, (DE).
    pub fn LD_A_DEm(&mut self) -> (r: CycleType)
        ensures
            r == 2,
            *final(self) == with_regs(*old(self), Registers { a: old(self).mem.read_value(old(self).regs.spec_de()), ..old(self).regs }),
    {
        let addr = self.regs.de();
        self.regs.a = self.mem.read_byte(addr);
        2
    }

    /// LD BC, nn: load the immediate word.
    pub fn LD_BC_nn(&mut self) -> (r: CycleType)
        ensures
            r == 3,
            *final(self) == with_regs(*old(self), Registers { b: high(imm16(*old(self))), c: low(imm16(*old(self))), pc: pc2(*old(self)), ..old(self).regs }),
    {
        let w = self.fetch_word();
        self.regs.set_bc(w);
        3
    }

    /// LD DE, nn: load the immediate word.
    pub fn LD_DE_nn(&mut self) -> (r: CycleType)
        ensures
            r == 3,
            *final(self) == with_regs(*old(self), Registers { d: high(imm16(*old(self))), e: low(imm16(*old(self))), pc: pc2(*old(self)), ..old(self).regs }),
    {
        let w = self.fetch_word();
        self.regs.set_de(w);
        3
    }

    /// LD HL, nn: load the immediate word.
    pub fn LD_HL_nn(&mut self) -> (r: CycleType)
        ensures
            r == 3,
            *final(self) == with_regs(*old(self), Registers { h: high(imm16(*old(self))), l: low(imm16(*old(self))), pc: pc2(*old(self)), ..old(self).regs }),
    {
        let w = self.fetch_word();
        self.regs.set_hl(w);
        3
    }

    /// LD SP, nn: load the immediate word.
    pub fn LD_SP_nn(&mut self) -> (r: CycleType)
        ensures
            r == 3,
            *final(self) == with_regs(*old(self), Registers { sp: imm16(*old(self)), pc: pc2(*old(self)), ..old(self).regs }),
    {
        self.regs.sp = self.fetch_word();
        3
    }

    /// LD (nn), A.
    pub fn LD_NNm_A(&mut self) -> (r: CycleType)
        ensures
            r == 4,
            final(self).regs == (Registers { pc: pc2(*old(self)), ..old(self).regs }),
            old(self).mem.written(imm16(*old(self)), old(self).regs.a, final(self).mem),
            same_control(*old(self), *final(self)),
    {
        let nn = self.fetch_word();
        let a = self.regs.a;
        self.mem.write_byte(nn, a);
        4
    }

    /// LD A, (nn).
    pub fn LD_A_NNm(&mut self) -> (r: CycleType)
        ensures
            r == 4,
            *final(self) == with_regs(*old(self), Registers { a: old(self).mem.read_value(imm16(*old(self))), pc: pc2(*old(self)), ..old(self).regs }),
    {
        let nn = self.fetch_word();
        self.regs.a = self.mem.read_byte(nn);
        4
    }

    /// LDI (HL), A: store A at HL, then increment HL.
    pub fn LDI_HLm_A(&mut self) -> (r: CycleType)
        ensures
            r == 2,
            final(self).regs == (Registers { h: high(inc16(old(self).regs.spec_hl())), l: low(inc16(old(self).regs.spec_hl())), ..old(self).regs }),
            old(self).mem.written(old(self).regs.spec_hl(), old(self).regs.a, final(self).mem),
            same_control(*old(self), *final(self)),
    {
        let hl = self.regs.hl();
        let a = self.regs.a;
        self.mem.write_byte(hl, a);
        self.regs.set_hl(hl.wrapping_add(1));
        2
    }

    /// LDD (HL), A: store A at HL, then decrement HL.
    pub fn LDD_HLm_A(&mut self) -> (r: CycleType)
        ensures
            r == 2,
            final(self).regs == (Registers { h: high(dec16(old(self).regs.spec_hl())), l: low(dec16(old(self).regs.spec_hl())), ..old(self).regs }),
            old(self).mem.written(old(self).regs.spec_hl(), old(self).regs.a, final(self).mem),
            same_control(*old(self), *final(self)),
    {
        let hl = self.regs.hl();
        let a = self.regs.a;
        self.mem.write_byte(hl, a);
        self.regs.set_hl(hl.wrapping_sub(1));
        2
    }

    /// LDI A, (HL): load the byte at HL, then increment HL.
    pub fn LDI_A_HLm(&mut self) -> (r: CycleType)
        ensures
            r == 2,
            *final(self) == with_regs(*old(self), Registers { a: at_hl(*old(self)), h: high(inc16(old(self).regs.spec_hl())), l: low(inc16(old(self).regs.spec_hl())), ..old(self).regs }),
    {
        let hl = self.regs.hl();
        self.regs.a = self.mem.read_byte(hl);
        self.regs.set_hl(hl.wrapping_add(1));
        2
    }

    /// LDD A, (HL): load the byte at HL, then decrement HL.
    pub fn LDD_A_HLm(&mut self) -> (r: CycleType)
        ensures
            r == 2,
            *final(self) == with_regs(*old(self), Registers { a: at_hl(*old(self)), h: high(dec16(old(self).regs.spec_hl())), l: low(dec16(old(self).regs.spec_hl())), ..old(self).regs }),
    {
        let hl = self.regs.hl();
        self.regs.a = self.mem.read_byte(hl);
        self.regs.set_hl(hl.wrapping_sub(1));
        2
    }

    /// LDH (n), A: store A at 0xFF00 + n.
    pub fn LDH_n_A(&mut self) -> (r: CycleType)
        ensures
            r == 3,
            final(self).regs == (Registers { pc: pc1(*old(self)), ..old(self).regs }),
            old(self).mem.written((0xFF00 + imm8(*old(self))) as u16, old(self).regs.a, final(self).mem),
            same_control(*old(self), *final(self)),
    {
        let n = self.fetch_byte();
        let a = self.regs.a;
        self.mem.write_byte(0xFF00 + n as u16, a);
        3
    }

    /// LDH A, (n): load the byte at 0xFF00 + n.
    pub fn LDH_A_n(&mut self) -> (r: CycleType)
        ensures
            r == 3,
            *final(self) == with_regs(*old(self), Registers { a: old(self).mem.read_value((0xFF00 + imm8(*old(self))) as u16), pc: pc1(*old(self)), ..old(self).regs }),
    {
        let n = self.fetch_byte();
        self.regs.a = self.mem.read_byte(0xFF00 + n as u16);
        3
    }

    /// LDH (C), A: store A at 0xFF00 + C.
    pub fn LDH_C_A(&mut self) -> (r: CycleType)
        ensures
            r == 2,
            final(self).regs == old(self).regs,
            old(self).mem.written((0xFF00 + old(self).regs.c) as u16, old(self).regs.a, final(self).mem),
            same_control(*old(self), *final(self)),
    {
        let c = self.regs.c;
        let a = self.regs.a;
        self.mem.write_byte(0xFF00 + c as u16, a);
        2
    }

    /// LDH A, (C): load the byte at 0xFF00 + C.
    pub fn LDH_A_C(&mut self) -> (r: CycleType)
        ensures
            r == 2,
            *final(self) == with_regs(*old(self), Registers { a: old(self).mem.read_value((0xFF00 + old(self).regs.c) as u16), ..old(self).regs }),
    {
        let c = self.regs.c;
        self.regs.a = self.mem.read_byte(0xFF00 + c as u16);
        2
    }

    /// LDHL SP, n: HL = SP plus the signed immediate byte.
    pub fn LDHL_SP_n(&mut self) -> (r: CycleType)
        ensures
            r == 3,
            *final(self) == with_regs(*old(self), Registers { h: high(offset16(old(self).regs.sp, imm8(*old(self)))), l: low(offset16(old(self).regs.sp, imm8(*old(self)))), f: add_sp_flags(old(self).regs.sp, imm8(*old(self))), pc: pc1(*old(self)), ..old(self).regs }),
    {
        let n = self.fetch_byte();
        let sp = self.regs.sp;
        let v = self.alu_add16_signed(sp, n);
        self.regs.set_hl(v);
        3
    }

    /// LD SP, HL.
    pub fn LD_SP_HL(&mut self) -> (r: CycleType)
        ensures
            r == 2,
            *final(self) == with_regs(*old(self), Registers { sp: old(self).regs.spec_hl(), ..old(self).regs }),
    {
        self.regs.sp = self.regs.hl();
        2
    }

    /// LD (nn), SP: store SP at nn, low byte first.
    pub fn LD_NNm_SP(&mut self) -> (r: CycleType)
        ensures
            r == 5,
            final(self).regs == (Registers { pc: pc2(*old(self)), ..old(self).regs }),
            word_written(old(self).mem, imm16(*old(self)), old(self).regs.sp, final(self).mem),
            same_control(*old(self), *final(self)),
    {
        let nn = self.fetch_word();
        let sp = self.regs.sp;
        write_word(&mut self.mem, nn, sp);
        5
    }

    /// POP BC.
    pub fn POP_BC(&mut self) -> (r: CycleType)
        ensures
            r == 3,
            *final(self) == with_regs(*old(self), Registers { b: high(word_value(old(self).mem, old(self).regs.sp)), c: low(word_value(old(self).mem, old(self).regs.sp)), sp: add2(old(self).regs.sp), ..old(self).regs }),
    {
        let v = self.stack_pop();
        self.regs.set_bc(v);
        3
    }

    /// POP DE.
    pub fn POP_DE(&mut self) -> (r: CycleType)
        ensures
            r == 3,
            *final(self) == with_regs(*old(self), Registers { d: high(word_value(old(self).mem, old(self).regs.sp)), e: low(word_value(old(self).mem, old(self).regs.sp)), sp: add2(old(self).regs.sp), ..old(self).regs }),
    {
        let v = self.stack_pop();
        self.regs.set_de(v);
        3
    }

    /// POP HL.
    pub fn POP_HL(&mut self) -> (r: CycleType)
        ensures
            r == 3,
            *final(self) == with_regs(*old(self), Registers { h: high(word_value(old(self).mem, old(self).regs.sp)), l: low(word_value(old(self).mem, old(self).regs.sp)), sp: add2(old(self).regs.sp), ..old(self).regs }),
    {
        let v = self.stack_pop();
        self.regs.set_hl(v);
        3
    }

    /// POP AF: the low nibble of F reads as zero.
    pub fn POP_AF(&mut self) -> (r: CycleType)
        ensures
            r == 3,
            *final(self) == with_regs(*old(self), Registers { a: high(word_value(old(self).mem, old(self).regs.sp)), f: (low(word_value(old(self).mem, old(self).regs.sp)) as nat / 16 * 16) as u8, sp: add2(old(self).regs.sp), ..old(self).regs }),
    {
        let v = self.stack_pop();
        self.regs.set_af(v);
        3
    }

    /// PUSH BC.
    pub fn PUSH_BC(&mut self) -> (r: CycleType)
        ensures
            r == 4,
            pushed(*old(self), old(self).regs.spec_bc(), *final(self)),
    {
        let v = self.regs.bc();
        self.stack_push(v);
        4
    }

    /// PUSH DE.
    pub fn PUSH_DE(&mut self) -> (r: CycleType)
        ensures
            r == 4,
            pushed(*old(self), old(self).regs.spec_de(), *final(self)),
    {
        let v = self.regs.de();
        self.stack_push(v);
        4
    }

    /// PUSH HL.
    pub fn PUSH_HL(&mut self) -> (r: CycleType)
        ensures
            r == 4,
            pushed(*old(self), old(self).regs.spec_hl(), *final(self)),
    {
        let v = self.regs.hl();
        self.stack_push(v);
        4
    }

    /// PUSH AF.
    pub fn PUSH_AF(&mut self) -> (r: CycleType)
        ensures
            r == 4,
            pushed(*old(self), old(self).regs.spec_af(), *final(self)),
    {
        let v = self.regs.af();
        self.stack_push(v);
        4
    }

    /// ADD HL, BC.
    pub fn ADD_HL_BC(&mut self) -> (r: CycleType)
        ensures
            r == 2,
            *final(self) == with_regs(*old(self), add_hl_regs(old(self).regs, old(self).regs.spec_bc())),
    {
        let v = self.regs.bc();
        self.alu_add_hl(v);
        2
    }

    /// ADD HL, DE.
    pub fn ADD_HL_DE(&mut self) -> (r: CycleType)
        ensures
            r == 2,
            *final(self) == with_regs(*old(self), add_hl_regs(old(self).regs, old(self).regs.spec_de())),
    {
        let v = self.regs.de();
        self.alu_add_hl(v);
        2
    }

    /// ADD HL, HL.
    pub fn ADD_HL_HL(&mut self) -> (r: CycleType)
        ensures
            r == 2,
            *final(self) == with_regs(*old(self), add_hl_regs(old(self).regs, old(self).regs.spec_hl())),
    {
        let v = self.regs.hl();
        self.alu_add_hl(v);
        2
    }

    /// ADD HL, SP.
    pub fn ADD_HL_SP(&mut self) -> (r: CycleType)
        ensures
            r == 2,
            *final(self) == with_regs(*old(self), add_hl_regs(old(self).regs, old(self).regs.sp)),
    {
        let v = self.regs.sp;
        self.alu_add_hl(v);
        2
    }

    /// ADD SP, n: add the signed immediate byte to SP.
    pub fn ADD_SP_n(&mut self) -> (r: CycleType)
        ensures
            r == 4,
            *final(self) == with_regs(*old(self), Registers { sp: offset16(old(self).regs.sp, imm8(*old(self))), f: add_sp_flags(old(self).regs.sp, imm8(*old(self))), pc: pc1(*old(self)), ..old(self).regs }),
    {
        let n = self.fetch_byte();
        let sp = self.regs.sp;
        self.regs.sp = self.alu_add16_signed(sp, n);
        4
    }

    /// ADD r: add a register to A
    pub fn ADD_r_b(&mut self) -> (r: CycleType)
        ensures
            r == 1,
            *final(self) == with_regs(*old(self), add_regs(old(self).regs, old(self).regs.b, false)),
    {
        let v = self.regs.b;
        self.alu_add(v, false);
        1
    }

    pub fn ADD_r_c(&mut self) -> (r: CycleType)
        ensures
            r == 1,
            *final(self) == with_regs(*old(self), add_regs(old(self).regs, old(self).regs.c, false)),
    {
        let v = self.regs.c;
        self.alu_add(v, false);
        1
    }

    pub fn ADD_r_d(&mut self) -> (r: CycleType)
        ensures
            r == 1,
            *final(self) == with_regs(*old(self), add_regs(old(self).regs, old(self).regs.d, false)),
    {
        let v = self.regs.d;
        self.alu_add(v, false);
        1
    }

    pub fn ADD_r_e(&mut self) -> (r: CycleType)
        ensures
            r == 1,
            *final(self) == with_regs(*old(self), add_regs(old(self).regs, old(self).regs.e, false)),
    {
        let v = self.regs.e;
        self.alu_add(v, false);
        1
    }

    pub fn ADD_r_h(&mut self) -> (r: CycleType)
        ensures
            r == 1,
            *final(self) == with_regs(*old(self), add_regs(old(self).regs, old(self).regs.h, false)),
    {
        let v = self.regs.h;
        self.alu_add(v, false);
        1
    }

    pub fn ADD_r_l(&mut self) -> (r: CycleType)
        ensures
            r == 1,
            *final(self) == with_regs(*old(self), add_regs(old(self).regs, old(self).regs.l, false)),
    {
        let v = self.regs.l;
        self.alu_add(v, false);
        1
    }

    pub fn ADD_r_a(&mut self) -> (r: CycleType)
        ensures
            r == 1,
            *final(self) == with_regs(*old(self), add_regs(old(self).regs, old(self).regs.a, false)),
    {
        let v = self.regs.a;
        self.alu_add(v, false);
        1
    }

    /// ADD (HL): add the byte at HL to A
    pub fn ADD_HLm(&mut self) -> (r: CycleType)
        ensures
            r == 2,
            *final(self) == with_regs(*old(self), add_regs(old(self).regs, at_hl(*old(self)), false)),
    {
        let hl = self.regs.hl();
        let v = self.mem.read_byte(hl);
        self.alu_add(v, false);
        2
    }

    /// ADD n: add the immediate byte to A
    pub fn ADD_n(&mut self) -> (r: CycleType)
        ensures
            r == 2,
            *final(self) == with_regs(*old(self), add_regs(Registers { pc: pc1(*old(self)), ..old(self).regs }, imm8(*old(self)), false)),
    {
        let v = self.fetch_byte();
        self.alu_add(v, false);
        2
    }

    /// ADC r: add a register and the carry to A
    pub fn ADC_r_b(&mut self) -> (r: CycleType)
        ensures
            r == 1,
            *final(self) == with_regs(*old(self), add_regs(old(self).regs, old(self).regs.b, true)),
    {
        let v = self.regs.b;
        self.alu_add(v, true);
        1
    }

    pub fn ADC_r_c(&mut self) -> (r: CycleType)
        ensures
            r == 1,
            *final(self) == with_regs(*old(self), add_regs(old(self).regs, old(self).regs.c, true)),
    {
        let v = self.regs.c;
        self.alu_add(v, true);
        1
    }

    pub fn ADC_r_d(&mut self) -> (r: CycleType)
        ensures
            r == 1,
            *final(self) == with_regs(*old(self), add_regs(old(self).regs, old(self).regs.d, true)),
    {
        let v = self.regs.d;
        self.alu_add(v, true);
        1
    }

    pub fn ADC_r_e(&mut self) -> (r: CycleType)
        ensures
            r == 1,
            *final(self) == with_regs(*old(self), add_regs(old(self).regs, old(self).regs.e, true)),
    {
        let v = self.regs.e;
        self.alu_add(v, true);
        1
    }

    pub fn ADC_r_h(&mut self) -> (r: CycleType)
        ensures
            r == 1,
            *final(self) == with_regs(*old(self), add_regs(old(self).regs, old(self).regs.h, true)),
    {
        let v = self.regs.h;
        self.alu_add(v, true);
        1
    }

    pub fn ADC_r_l(&mut self) -> (r: CycleType)
        ensures
            r == 1,
            *final(self) == with_regs(*old(self), add_regs(old(self).regs, old(self).regs.l, true)),
    {
        let v = self.regs.l;
        self.alu_add(v, true);
        1
    }

    pub fn ADC_r_a(&mut self) -> (r: CycleType)
        ensures
            r == 1,
            *final(self) == with_regs(*old(self), add_regs(old(self).regs, old(self).regs.a, true)),
    {
        let v = self.regs.a;
        self.alu_add(v, true);
        1
    }

    /// ADC (HL): add the byte at HL and the carry to A
    pub fn ADC_HLm(&mut self) -> (r: CycleType)
        ensures
            r == 2,
            *final(self) == with_regs(*old(self), add_regs(old(self).regs, at_hl(*old(self)), true)),
    {
        let hl = self.regs.hl();
        let v = self.mem.read_byte(hl);
        self.alu_add(v, true);
        2
    }

    /// ADC n: add the immediate byte and the carry to A
    pub fn ADC_n(&mut self) -> (r: CycleType)
        ensures
            r == 2,
            *final(self) == with_regs(*old(self), add_regs(Registers { pc: pc1(*old(self)), ..old(self).regs }, imm8(*old(self)), true)),
    {
        let v = self.fetch_byte();
        self.alu_add(v, true);
        2
    }

    /// SUB r: subtract a register from A
    pub fn SUB_r_b(&mut self) -> (r: CycleType)
        ensures
            r == 1,
            *final(self) == with_regs(*old(self), sub_regs(old(self).regs, old(self).regs.b, false)),
    {
        let v = self.regs.b;
        self.alu_sub(v, false);
        1
    }

    pub fn SUB_r_c(&mut self) -> (r: CycleType)
        ensures
            r == 1,
            *final(self) == with_regs(*old(self), sub_regs(old(self).regs, old(self).regs.c, false)),
    {
        let v = self.regs.c;
        self.alu_sub(v, false);
        1
    }

    pub fn SUB_r_d(&mut self) -> (r: CycleType)
        ensures
            r == 1,
            *final(self) == with_regs(*old(self), sub_regs(old(self).regs, old(self).regs.d, false)),
    {
        let v = self.regs.d;
        self.alu_sub(v, false);
        1
    }

    pub fn SUB_r_e(&mut self) -> (r: CycleType)
        ensures
            r == 1,
            *final(self) == with_regs(*old(self), sub_regs(old(self).regs, old(self).regs.e, false)),
    {
        let v = self.regs.e;
        self.alu_sub(v, false);
        1
    }

    pub fn SUB_r_h(&mut self) -> (r: CycleType)
        ensures
            r == 1,
            *final(self) == with_regs(*old(self), sub_regs(old(self).regs, old(self).regs.h, false)),
    {
        let v = self.regs.h;
        self.alu_sub(v, false);
        1
    }

    pub fn SUB_r_l(&mut self) -> (r: CycleType)
        ensures
            r == 1,
            *final(self) == with_regs(*old(self), sub_regs(old(self).regs, old(self).regs.l, false)),
    {
        let v = self.regs.l;
        self.alu_sub(v, false);
        1
    }

    pub fn SUB_r_a(&mut self) -> (r: CycleType)
        ensures
            r == 1,
            *final(self) == with_regs(*old(self), sub_regs(old(self).regs, old(self).regs.a, false)),
    {
        let v = self.regs.a;
        self.alu_sub(v, false);
        1
    }

    /// SUB (HL): subtract the byte at HL from A
    pub fn SUB_HLm(&mut self) -> (r: CycleType)
        ensures
            r == 2,
            *final(self) == with_regs(*old(self), sub_regs(old(self).regs, at_hl(*old(self)), false)),
    {
        let hl = self.regs.hl();
        let v = self.mem.read_byte(hl);
        self.alu_sub(v, false);
        2
    }

    /// SUB n: subtract the immediate byte from A
    pub fn SUB_n(&mut self) -> (r: CycleType)
        ensures
            r == 2,
            *final(self) == with_regs(*old(self), sub_regs(Registers { pc: pc1(*old(self)), ..old(self).regs }, imm8(*old(self)), false)),
    {
        let v = self.fetch_byte();
        self.alu_sub(v, false);
        2
    }

    /// SBC r: subtract a register and the carry from A
    pub fn SBC_r_b(&mut self) -> (r: CycleType)
        ensures
            r == 1,
            *final(self) == with_regs(*old(self), sub_regs(old(self).regs, old(self).regs.b, true)),
    {
        let v = self.regs.b;
        self.alu_sub(v, true);
        1
    }

    pub fn SBC_r_c(&mut self) -> (r: CycleType)
        ensures
            r == 1,
            *final(self) == with_regs(*old(self), sub_regs(old(self).regs, old(self).regs.c, true)),
    {
        let v = self.regs.c;
        self.alu_sub(v, true);
        1
    }

    pub fn SBC_r_d(&mut self) -> (r: CycleType)
        ensures
            r == 1,
            *final(self) == with_regs(*old(self), sub_regs(old(self).regs, old(self).regs.d, true)),
    {
        let v = self.regs.d;
        self.alu_sub(v, true);
        1
    }

    pub fn SBC_r_e(&mut self) -> (r: CycleType)
        ensures
            r == 1,
            *final(self) == with_regs(*old(self), sub_regs(old(self).regs, old(self).regs.e, true)),
    {
        let v = self.regs.e;
        self.alu_sub(v, true);
        1
    }

    pub fn SBC_r_h(&mut self) -> (r: CycleType)
        ensures
            r == 1,
            *final(self) == with_regs(*old(self), sub_regs(old(self).regs, old(self).regs.h, true)),
    {
        let v = self.regs.h;
        self.alu_sub(v, true);
        1
    }

    pub fn SBC_r_l(&mut self) -> (r: CycleType)
        ensures
            r == 1,
            *final(self) == with_regs(*old(self), sub_regs(old(self).regs, old(self).regs.l, true)),
    {
        let v = self.regs.l;
        self.alu_sub(v, true);
        1
    }

    pub fn SBC_r_a(&mut self) -> (r: CycleType)
        ensures
            r == 1,
            *final(self) == with_regs(*old(self), sub_regs(old(self).regs, old(self).regs.a, true)),
    {
        let v = self.regs.a;
        self.alu_sub(v, true);
        1
    }

    /// SBC (HL): subtract the byte at HL and the carry from A
    pub fn SBC_HLm(&mut self) -> (r: CycleType)
        ensures
            r == 2,
            *final(self) == with_regs(*old(self), sub_regs(old(self).regs, at_hl(*old(self)), true)),
    {
        let hl = self.regs.hl();
        let v = self.mem.read_byte(hl);
        self.alu_sub(v, true);
        2
    }

    /// SBC n: subtract the immediate byte and the carry from A
    pub fn SBC_n(&mut self) -> (r: CycleType)
        ensures
            r == 2,
            *final(self) == with_regs(*old(self), sub_regs(Registers { pc: pc1(*old(self)), ..old(self).regs }, imm8(*old(self)), true)),
    {
        let v = self.fetch_byte();
        self.alu_sub(v, true);
        2
    }

    /// AND r: A &= a register
    pub fn AND_r_b(&mut self) -> (r: CycleType)
        ensures
            r == 1,
            *final(self) == with_regs(*old(self), and_regs(old(self).regs, old(self).regs.b)),
    {
        let v = self.regs.b;
        self.alu_and(v);
        1
    }

    pub fn AND_r_c(&mut self) -> (r: CycleType)
        ensures
            r == 1,
            *final(self) == with_regs(*old(self), and_regs(old(self).regs, old(self).regs.c)),
    {
        let v = self.regs.c;
        self.alu_and(v);
        1
    }

    pub fn AND_r_d(&mut self) -> (r: CycleType)
        ensures
            r == 1,
            *final(self) == with_regs(*old(self), and_regs(old(self).regs, old(self).regs.d)),
    {
        let v = self.regs.d;
        self.alu_and(v);
        1
    }

    pub fn AND_r_e(&mut self) -> (r: CycleType)
        ensures
            r == 1,
            *final(self) == with_regs(*old(self), and_regs(old(self).regs, old(self).regs.e)),
    {
        let v = self.regs.e;
        self.alu_and(v);
        1
    }

    pub fn AND_r_h(&mut self) -> (r: CycleType)
        ensures
            r == 1,
            *final(self) == with_regs(*old(self), and_regs(old(self).regs, old(self).regs.h)),
    {
        let v = self.regs.h;
        self.alu_and(v);
        1
    }

    pub fn AND_r_l(&mut self) -> (r: CycleType)
        ensures
            r == 1,
            *final(self) == with_regs(*old(self), and_regs(old(self).regs, old(self).regs.l)),
    {
        let v = self.regs.l;
        self.alu_and(v);
        1
    }

    pub fn AND_r_a(&mut self) -> (r: CycleType)
        ensures
            r == 1,
            *final(self) == with_regs(*old(self), and_regs(old(self).regs, old(self).regs.a)),
    {
        let v = self.regs.a;
        self.alu_and(v);
        1
    }

    /// AND (HL): A &= the byte at HL
    pub fn AND_HLm(&mut self) -> (r: CycleType)
        ensures
            r == 2,
            *final(self) == with_regs(*old(self), and_regs(old(self).regs, at_hl(*old(self)))),
    {
        let hl = self.regs.hl();
        let v = self.mem.read_byte(hl);
        self.alu_and(v);
        2
    }

    /// AND n: A &= the immediate byte
    pub fn AND_n(&mut self) -> (r: CycleType)
        ensures
            r == 2,
            *final(self) == with_regs(*old(self), and_regs(Registers { pc: pc1(*old(self)), ..old(self).regs }, imm8(*old(self)))),
    {
        let v = self.fetch_byte();
        self.alu_and(v);
        2
    }

    /// OR r: A |= a register
    pub fn OR_r_b(&mut self) -> (r: CycleType)
        ensures
            r == 1,
            *final(self) == with_regs(*old(self), or_regs(old(self).regs, old(self).regs.b)),
    {
        let v = self.regs.b;
        self.alu_or(v);
        1
    }

    pub fn OR_r_c(&mut self) -> (r: CycleType)
        ensures
            r == 1,
            *final(self) == with_regs(*old(self), or_regs(old(self).regs, old(self).regs.c)),
    {
        let v = self.regs.c;
        self.alu_or(v);
        1
    }

    pub fn OR_r_d(&mut self) -> (r: CycleType)
        ensures
            r == 1,
            *final(self) == with_regs(*old(self), or_regs(old(self).regs, old(self).regs.d)),
    {
        let v = self.regs.d;
        self.alu_or(v);
        1
    }

    pub fn OR_r_e(&mut self) -> (r: CycleType)
        ensures
            r == 1,
            *final(self) == with_regs(*old(self), or_regs(old(self).regs, old(self).regs.e)),
    {
        let v = self.regs.e;
        self.alu_or(v);
        1
    }

    pub fn OR_r_h(&mut self) -> (r: CycleType)
        ensures
            r == 1,
            *final(self) == with_regs(*old(self), or_regs(old(self).regs, old(self).regs.h)),
    {
        let v = self.regs.h;
        self.alu_or(v);
        1
    }

    pub fn OR_r_l(&mut self) -> (r: CycleType)
        ensures
            r == 1,
            *final(self) == with_regs(*old(self), or_regs(old(self).regs, old(self).regs.l)),
    {
        let v = self.regs.l;
        self.alu_or(v);
        1
    }

    pub fn OR_r_a(&mut self) -> (r: CycleType)
        ensures
            r == 1,
            *final(self) == with_regs(*old(self), or_regs(old(self).regs, old(self).regs.a)),
    {
        let v = self.regs.a;
        self.alu_or(v);
        1
    }

    /// OR (HL): A |= the byte at HL
    pub fn OR_HLm(&mut self) -> (r: CycleType)
        ensures
            r == 2,
            *final(self) == with_regs(*old(self), or_regs(old(self).regs, at_hl(*old(self)))),
    {
        let hl = self.regs.hl();
        let v = self.mem.read_byte(hl);
        self.alu_or(v);
        2
    }

    /// OR n: A |= the immediate byte
    pub fn OR_n(&mut self) -> (r: CycleType)
        ensures
            r == 2,
            *final(self) == with_regs(*old(self), or_regs(Registers { pc: pc1(*old(self)), ..old(self).regs }, imm8(*old(self)))),
    {
        let v = self.fetch_byte();
        self.alu_or(v);
        2
    }

    /// XOR r: A ^= a register
    pub fn XOR_r_b(&mut self) -> (r: CycleType)
        ensures
            r == 1,
            *final(self) == with_regs(*old(self), xor_regs(old(self).regs, old(self).regs.b)),
    {
        let v = self.regs.b;
        self.alu_xor(v);
        1
    }

    pub fn XOR_r_c(&mut self) -> (r: CycleType)
        ensures
            r == 1,
            *final(self) == with_regs(*old(self), xor_regs(old(self).regs, old(self).regs.c)),
    {
        let v = self.regs.c;
        self.alu_xor(v);
        1
    }

    pub fn XOR_r_d(&mut self) -> (r: CycleType)
        ensures
            r == 1,
            *final(self) == with_regs(*old(self), xor_regs(old(self).regs, old(self).regs.d)),
    {
        let v = self.regs.d;
        self.alu_xor(v);
        1
    }

    pub fn XOR_r_e(&mut self) -> (r: CycleType)
        ensures
            r == 1,
            *final(self) == with_regs(*old(self), xor_regs(old(self).regs, old(self).regs.e)),
    {
        let v = self.regs.e;
        self.alu_xor(v);
        1
    }

    pub fn XOR_r_h(&mut self) -> (r: CycleType)
        ensures
            r == 1,
            *final(self) == with_regs(*old(self), xor_regs(old(self).regs, old(self).regs.h)),
    {
        let v = self.regs.h;
        self.alu_xor(v);
        1
    }

    pub fn XOR_r_l(&mut self) -> (r: CycleType)
        ensures
            r == 1,
            *final(self) == with_regs(*old(self), xor_regs(old(self).regs, old(self).regs.l)),
    {
        let v = self.regs.l;
        self.alu_xor(v);
        1
    }

    pub fn XOR_r_a(&mut self) -> (r: CycleType)
        ensures
            r == 1,
            *final(self) == with_regs(*old(self), xor_regs(old(self).regs, old(self).regs.a)),
    {
        let v = self.regs.a;
        self.alu_xor(v);
        1
    }

    /// XOR (HL): A ^= the byte at HL
    pub fn XOR_HLm(&mut self) -> (r: CycleType)
        ensures
            r == 2,
            *final(self) == with_regs(*old(self), xor_regs(old(self).regs, at_hl(*old(self)))),
    {
        let hl = self.regs.hl();
        let v = self.mem.read_byte(hl);
        self.alu_xor(v);
        2
    }

    /// XOR n: A ^= the immediate byte
    pub fn XOR_n(&mut self) -> (r: CycleType)
        ensures
            r == 2,
            *final(self) == with_regs(*old(self), xor_regs(Registers { pc: pc1(*old(self)), ..old(self).regs }, imm8(*old(self)))),
    {
        let v = self.fetch_byte();
        self.alu_xor(v);
        2
    }

    /// CP r: compare A with a register
    pub fn CP_r_b(&mut self) -> (r: CycleType)
        ensures
            r == 1,
            *final(self) == with_regs(*old(self), cp_regs(old(self).regs, old(self).regs.b)),
    {
        let v = self.regs.b;
        self.alu_cp(v);
        1
    }

    pub fn CP_r_c(&mut self) -> (r: CycleType)
        ensures
            r == 1,
            *final(self) == with_regs(*old(self), cp_regs(old(self).regs, old(self).regs.c)),
    {
        let v = self.regs.c;
        self.alu_cp(v);
        1
    }

    pub fn CP_r_d(&mut self) -> (r: CycleType)
        ensures
            r == 1,
            *final(self) == with_regs(*old(self), cp_regs(old(self).regs, old(self).regs.d)),
    {
        let v = self.regs.d;
        self.alu_cp(v);
        1
    }

    pub fn CP_r_e(&mut self) -> (r: CycleType)
        ensures
            r == 1,
            *final(self) == with_regs(*old(self), cp_regs(old(self).regs, old(self).regs.e)),
    {
        let v = self.regs.e;
        self.alu_cp(v);
        1
    }

    pub fn CP_r_h(&mut self) -> (r: CycleType)
        ensures
            r == 1,
            *final(self) == with_regs(*old(self), cp_regs(old(self).regs, old(self).regs.h)),
    {
        let v = self.regs.h;
        self.alu_cp(v);
        1
    }

    pub fn CP_r_l(&mut self) -> (r: CycleType)
        ensures
            r == 1,
            *final(self) == with_regs(*old(self), cp_regs(old(self).regs, old(self).regs.l)),
    {
        let v = self.regs.l;
        self.alu_cp(v);
        1
    }

    pub fn CP_r_a(&mut self) -> (r: CycleType)
        ensures
            r == 1,
            *final(self) == with_regs(*old(self), cp_regs(old(self).regs, old(self).regs.a)),
    {
        let v = self.regs.a;
        self.alu_cp(v);
        1
    }

    /// CP (HL): compare A with the byte at HL
    pub fn CP_HLm(&mut self) -> (r: CycleType)
        ensures
            r == 2,
            *final(self) == with_regs(*old(self), cp_regs(old(self).regs, at_hl(*old(self)))),
    {
        let hl = self.regs.hl();
        let v = self.mem.read_byte(hl);
        self.alu_cp(v);
        2
    }

    /// CP n: compare A with the immediate byte
    pub fn CP_n(&mut self) -> (r: CycleType)
        ensures
            r == 2,
            *final(self) == with_regs(*old(self), cp_regs(Registers { pc: pc1(*old(self)), ..old(self).regs }, imm8(*old(self)))),
    {
        let v = self.fetch_byte();
        self.alu_cp(v);
        2
    }

    /// DAA: adjust A to binary-coded decimal after an addition or a subtraction.
    pub fn DAA(&mut self) -> (r: CycleType)
        ensures
            r == 1,
            *final(self) == with_regs(*old(self), daa_regs(old(self).regs)),
    {
        let a = self.regs.a;
        let n = self.regs.flag(N_FLAG);
        let low_fix = self.regs.flag(H_FLAG) || (!n && a % 16 > 9);
        let high_fix = self.regs.flag(C_FLAG) || (!n && a > 0x99);
        let adjust: u8 = if low_fix { 0x06 } else { 0 } + if high_fix { 0x60 } else { 0 };
        let res = if !n { a.wrapping_add(adjust) } else { a.wrapping_sub(adjust) };
        self.regs.a = res;
        self.regs.f = make_flags(res == 0, n, false, high_fix);
        1
    }

    /// CPL: complement A.
    pub fn CPL(&mut self) -> (r: CycleType)
        ensures
            r == 1,
            *final(self) == with_regs(*old(self), Registers { a: (255 - old(self).regs.a) as u8, f: flags_of(has_flag(old(self).regs.f, Z_FLAG), true, true, has_flag(old(self).regs.f, C_FLAG)), ..old(self).regs }),
    {
        self.regs.a = 255 - self.regs.a;
        let z = self.regs.flag(Z_FLAG);
        let c = self.regs.flag(C_FLAG);
        self.regs.f = make_flags(z, true, true, c);
        1
    }

    /// RLA: rotate A; Z is always cleared.
    pub fn RL(&mut self) -> (r: CycleType)
        ensures
            r == 1,
            *final(self) == with_regs(*old(self), Registers { a: rl_value(old(self).regs.a, old(self).regs.f), f: flags_of(false, false, false, out_left(old(self).regs.a)), ..old(self).regs }),
    {
        let a = self.regs.a;
        self.regs.a = self.alu_rl(a);
        self.regs.f = make_flags(false, false, false, a >= 128);
        1
    }

    /// RLCA: rotate A; Z is always cleared.
    pub fn RLC(&mut self) -> (r: CycleType)
        ensures
            r == 1,
            *final(self) == with_regs(*old(self), Registers { a: rlc_value(old(self).regs.a), f: flags_of(false, false, false, out_left(old(self).regs.a)), ..old(self).regs }),
    {
        let a = self.regs.a;
        self.regs.a = self.alu_rlc(a);
        self.regs.f = make_flags(false, false, false, a >= 128);
        1
    }

    /// RRA: rotate A; Z is always cleared.
    pub fn RR(&mut self) -> (r: CycleType)
        ensures
            r == 1,
            *final(self) == with_regs(*old(self), Registers { a: rr_value(old(self).regs.a, old(self).regs.f), f: flags_of(false, false, false, out_right(old(self).regs.a)), ..old(self).regs }),
    {
        let a = self.regs.a;
        self.regs.a = self.alu_rr(a);
        self.regs.f = make_flags(false, false, false, a % 2 == 1);
        1
    }

    /// RRCA: rotate A; Z is always cleared.
    pub fn RRC(&mut self) -> (r: CycleType)
        ensures
            r == 1,
            *final(self) == with_regs(*old(self), Registers { a: rrc_value(old(self).regs.a), f: flags_of(false, false, false, out_right(old(self).regs.a)), ..old(self).regs }),
    {
        let a = self.regs.a;
        self.regs.a = self.alu_rrc(a);
        self.regs.f = make_flags(false, false, false, a % 2 == 1);
        1
    }

    /// INC r: increment a register; C is kept.
    pub fn INC_r_b(&mut self) -> (r: CycleType)
        ensures
            r == 1,
            *final(self) == with_regs(*old(self), Registers { b: inc_value(old(self).regs.b), f: inc_flags(old(self).regs.b, old(self).regs.f), ..old(self).regs }),
    {
        let v = self.regs.b;
        self.regs.b = self.alu_inc(v);
        1
    }

    pub fn INC_r_c(&mut self) -> (r: CycleType)
        ensures
            r == 1,
            *final(self) == with_regs(*old(self), Registers { c: inc_value(old(self).regs.c), f: inc_flags(old(self).regs.c, old(self).regs.f), ..old(self).regs }),
    {
        let v = self.regs.c;
        self.regs.c = self.alu_inc(v);
        1
    }

    pub fn INC_r_d(&mut self) -> (r: CycleType)
        ensures
            r == 1,
            *final(self) == with_regs(*old(self), Registers { d: inc_value(old(self).regs.d), f: inc_flags(old(self).regs.d, old(self).regs.f), ..old(self).regs }),
    {
        let v = self.regs.d;
        self.regs.d = self.alu_inc(v);
        1
    }

    pub fn INC_r_e(&mut self) -> (r: CycleType)
        ensures
            r == 1,
            *final(self) == with_regs(*old(self), Registers { e: inc_value(old(self).regs.e), f: inc_flags(old(self).regs.e, old(self).regs.f), ..old(self).regs }),
    {
        let v = self.regs.e;
        self.regs.e = self.alu_inc(v);
        1
    }

    pub fn INC_r_h(&mut self) -> (r: CycleType)
        ensures
            r == 1,
            *final(self) == with_regs(*old(self), Registers { h: inc_value(old(self).regs.h), f: inc_flags(old(self).regs.h, old(self).regs.f), ..old(self).regs }),
    {
        let v = self.regs.h;
        self.regs.h = self.alu_inc(v);
        1
    }

    pub fn INC_r_l(&mut self) -> (r: CycleType)
        ensures
            r == 1,
            *final(self) == with_regs(*old(self), Registers { l: inc_value(old(self).regs.l), f: inc_flags(old(self).regs.l, old(self).regs.f), ..old(self).regs }),
    {
        let v = self.regs.l;
        self.regs.l = self.alu_inc(v);
        1
    }

    pub fn INC_r_a(&mut self) -> (r: CycleType)
        ensures
            r == 1,
            *final(self) == with_regs(*old(self), Registers { a: inc_value(old(self).regs.a), f: inc_flags(old(self).regs.a, old(self).regs.f), ..old(self).regs }),
    {
        let v = self.regs.a;
        self.regs.a = self.alu_inc(v);
        1
    }

    /// DEC r: decrement a register; C is kept.
    pub fn DEC_r_b(&mut self) -> (r: CycleType)
        ensures
            r == 1,
            *final(self) == with_regs(*old(self), Registers { b: dec_value(old(self).regs.b), f: dec_flags(old(self).regs.b, old(self).regs.f), ..old(self).regs }),
    {
        let v = self.regs.b;
        self.regs.b = self.alu_dec(v);
        1
    }

    pub fn DEC_r_c(&mut self) -> (r: CycleType)
        ensures
            r == 1,
            *final(self) == with_regs(*old(self), Registers { c: dec_value(old(self).regs.c), f: dec_flags(old(self).regs.c, old(self).regs.f), ..old(self).regs }),
    {
        let v = self.regs.c;
        self.regs.c = self.alu_dec(v);
        1
    }

    pub fn DEC_r_d(&mut self) -> (r: CycleType)
        ensures
            r == 1,
            *final(self) == with_regs(*old(self), Registers { d: dec_value(old(self).regs.d), f: dec_flags(old(self).regs.d, old(self).regs.f), ..old(self).regs }),
    {
        let v = self.regs.d;
        self.regs.d = self.alu_dec(v);
        1
    }

    pub fn DEC_r_e(&mut self) -> (r: CycleType)
        ensures
            r == 1,
            *final(self) == with_regs(*old(self), Registers { e: dec_value(old(self).regs.e), f: dec_flags(old(self).regs.e, old(self).regs.f), ..old(self).regs }),
    {
        let v = self.regs.e;
        self.regs.e = self.alu_dec(v);
        1
    }

    pub fn DEC_r_h(&mut self) -> (r: CycleType)
        ensures
            r == 1,
            *final(self) == with_regs(*old(self), Registers { h: dec_value(old(self).regs.h), f: dec_flags(old(self).regs.h, old(self).regs.f), ..old(self).regs }),
    {
        let v = self.regs.h;
        self.regs.h = self.alu_dec(v);
        1
    }

    pub fn DEC_r_l(&mut self) -> (r: CycleType)
        ensures
            r == 1,
            *final(self) == with_regs(*old(self), Registers { l: dec_value(old(self).regs.l), f: dec_flags(old(self).regs.l, old(self).regs.f), ..old(self).regs }),
    {
        let v = self.regs.l;
        self.regs.l = self.alu_dec(v);
        1
    }

    pub fn DEC_r_a(&mut self) -> (r: CycleType)
        ensures
            r == 1,
            *final(self) == with_regs(*old(self), Registers { a: dec_value(old(self).regs.a), f: dec_flags(old(self).regs.a, old(self).regs.f), ..old(self).regs }),
    {
        let v = self.regs.a;
        self.regs.a = self.alu_dec(v);
        1
    }

    /// INC (HL): increment the byte at HL.
    pub fn INC_HLm(&mut self) -> (r: CycleType)
        ensures
            r == 3,
            final(self).regs == (Registers { f: inc_flags(at_hl(*old(self)), old(self).regs.f), ..old(self).regs }),
            old(self).mem.written(old(self).regs.spec_hl(), inc_value(at_hl(*old(self))), final(self).mem),
            same_control(*old(self), *final(self)),
    {
        let hl = self.regs.hl();
        let v = self.mem.read_byte(hl);
        let r = self.alu_inc(v);
        self.mem.write_byte(hl, r);
        3
    }

    /// DEC (HL): decrement the byte at HL.
    pub fn DEC_HLm(&mut self) -> (r: CycleType)
        ensures
            r == 3,
            final(self).regs == (Registers { f: dec_flags(at_hl(*old(self)), old(self).regs.f), ..old(self).regs }),
            old(self).mem.written(old(self).regs.spec_hl(), dec_value(at_hl(*old(self))), final(self).mem),
            same_control(*old(self), *final(self)),
    {
        let hl = self.regs.hl();
        let v = self.mem.read_byte(hl);
        let r = self.alu_dec(v);
        self.mem.write_byte(hl, r);
        3
    }

    /// INC BC; no flag changes.
    pub fn INC_BC(&mut self) -> (r: CycleType)
        ensures
            r == 2,
            *final(self) == with_regs(*old(self), Registers { b: high(inc16(old(self).regs.spec_bc())), c: low(inc16(old(self).regs.spec_bc())), ..old(self).regs }),
    {
        let v = self.regs.bc().wrapping_add(1);
        self.regs.set_bc(v);
        2
    }

    /// INC DE; no flag changes.
    pub fn INC_DE(&mut self) -> (r: CycleType)
        ensures
            r == 2,
            *final(self) == with_regs(*old(self), Registers { d: high(inc16(old(self).regs.spec_de())), e: low(inc16(old(self).regs.spec_de())), ..old(self).regs }),
    {
        let v = self.regs.de().wrapping_add(1);
        self.regs.set_de(v);
        2
    }

    /// INC HL; no flag changes.
    pub fn INC_HL(&mut self) -> (r: CycleType)
        ensures
            r == 2,
            *final(self) == with_regs(*old(self), Registers { h: high(inc16(old(self).regs.spec_hl())), l: low(inc16(old(self).regs.spec_hl())), ..old(self).regs }),
    {
        let v = self.regs.hl().wrapping_add(1);
        self.regs.set_hl(v);
        2
    }

    /// INC SP; no flag changes.
    pub fn INC_SP(&mut self) -> (r: CycleType)
        ensures
            r == 2,
            *final(self) == with_regs(*old(self), Registers { sp: inc16(old(self).regs.sp), ..old(self).regs }),
    {
        self.regs.sp = self.regs.sp.wrapping_add(1);
        2
    }

    /// DEC BC; no flag changes.
    pub fn DEC_BC(&mut self) -> (r: CycleType)
        ensures
            r == 2,
            *final(self) == with_regs(*old(self), Registers { b: high(dec16(old(self).regs.spec_bc())), c: low(dec16(old(self).regs.spec_bc())), ..old(self).regs }),
    {
        let v = self.regs.bc().wrapping_sub(1);
        self.regs.set_bc(v);
        2
    }

    /// DEC DE; no flag changes.
    pub fn DEC_DE(&mut self) -> (r: CycleType)
        ensures
            r == 2,
            *final(self) == with_regs(*old(self), Registers { d: high(dec16(old(self).regs.spec_de())), e: low(dec16(old(self).regs.spec_de())), ..old(self).regs }),
    {
        let v = self.regs.de().wrapping_sub(1);
        self.regs.set_de(v);
        2
    }

    /// DEC HL; no flag changes.
    pub fn DEC_HL(&mut self) -> (r: CycleType)
        ensures
            r == 2,
            *final(self) == with_regs(*old(self), Registers { h: high(dec16(old(self).regs.spec_hl())), l: low(dec16(old(self).regs.spec_hl())), ..old(self).regs }),
    {
        let v = self.regs.hl().wrapping_sub(1);
        self.regs.set_hl(v);
        2
    }

    /// DEC SP; no flag changes.
    pub fn DEC_SP(&mut self) -> (r: CycleType)
        ensures
            r == 2,
            *final(self) == with_regs(*old(self), Registers { sp: dec16(old(self).regs.sp), ..old(self).regs }),
    {
        self.regs.sp = self.regs.sp.wrapping_sub(1);
        2
    }

    /// JP nn: jump to the immediate address.
    pub fn JP_nn(&mut self) -> (r: CycleType)
        ensures
            r == 4,
            *final(self) == with_regs(*old(self), Registers { pc: imm16(*old(self)), ..old(self).regs }),
    {
        self.regs.pc = self.fetch_word();
        4
    }

    /// JP HL: jump to HL.
    pub fn JP_HLm(&mut self) -> (r: CycleType)
        ensures
            r == 1,
            *final(self) == with_regs(*old(self), Registers { pc: old(self).regs.spec_hl(), ..old(self).regs }),
    {
        self.regs.pc = self.regs.hl();
        1
    }

    /// JP NZ, nn: conditional absolute jump.
    pub fn JP_NZ_nn(&mut self) -> (r: CycleType)
        ensures
            r == (if !has_flag(old(self).regs.f, Z_FLAG) { 4u64 } else { 3u64 }),
            *final(self) == with_regs(*old(self), Registers { pc: if !has_flag(old(self).regs.f, Z_FLAG) { imm16(*old(self)) } else { pc2(*old(self)) }, ..old(self).regs }),
    {
        let nn = self.fetch_word();
        if !self.regs.flag(Z_FLAG) {
            self.regs.pc = nn;
            4
        } else {
            3
        }
    }

    /// JP NC, nn: conditional absolute jump.
    pub fn JP_NC_nn(&mut self) -> (r: CycleType)
        ensures
            r == (if !has_flag(old(self).regs.f, C_FLAG) { 4u64 } else { 3u64 }),
            *final(self) == with_regs(*old(self), Registers { pc: if !has_flag(old(self).regs.f, C_FLAG) { imm16(*old(self)) } else { pc2(*old(self)) }, ..old(self).regs }),
    {
        let nn = self.fetch_word();
        if !self.regs.flag(C_FLAG) {
            self.regs.pc = nn;
            4
        } else {
            3
        }
    }

    /// JP Z, nn: conditional absolute jump.
    pub fn JP_Z_nn(&mut self) -> (r: CycleType)
        ensures
            r == (if has_flag(old(self).regs.f, Z_FLAG) { 4u64 } else { 3u64 }),
            *final(self) == with_regs(*old(self), Registers { pc: if has_flag(old(self).regs.f, Z_FLAG) { imm16(*old(self)) } else { pc2(*old(self)) }, ..old(self).regs }),
    {
        let nn = self.fetch_word();
        if self.regs.flag(Z_FLAG) {
            self.regs.pc = nn;
            4
        } else {
            3
        }
    }

    /// JP C, nn: conditional absolute jump.
    pub fn JP_C_nn(&mut self) -> (r: CycleType)
        ensures
            r == (if has_flag(old(self).regs.f, C_FLAG) { 4u64 } else { 3u64 }),
            *final(self) == with_regs(*old(self), Registers { pc: if has_flag(old(self).regs.f, C_FLAG) { imm16(*old(self)) } else { pc2(*old(self)) }, ..old(self).regs }),
    {
        let nn = self.fetch_word();
        if self.regs.flag(C_FLAG) {
            self.regs.pc = nn;
            4
        } else {
            3
        }
    }

    /// JR n: relative jump by the signed immediate byte.
    pub fn JR_n(&mut self) -> (r: CycleType)
        ensures
            r == 3,
            *final(self) == with_regs(*old(self), Registers { pc: offset16(pc1(*old(self)), imm8(*old(self))), ..old(self).regs }),
    {
        let b = self.fetch_byte();
        self.cpu_jr(b);
        3
    }

    /// JR Z, n: conditional relative jump.
    pub fn JR_Z_n(&mut self) -> (r: CycleType)
        ensures
            r == (if has_flag(old(self).regs.f, Z_FLAG) { 3u64 } else { 2u64 }),
            *final(self) == with_regs(*old(self), Registers { pc: if has_flag(old(self).regs.f, Z_FLAG) { offset16(pc1(*old(self)), imm8(*old(self))) } else { pc1(*old(self)) }, ..old(self).regs }),
    {
        let b = self.fetch_byte();
        if self.regs.flag(Z_FLAG) {
            self.cpu_jr(b);
            3
        } else {
            2
        }
    }

    /// JR NZ, n: conditional relative jump.
    pub fn JR_NZ_n(&mut self) -> (r: CycleType)
        ensures
            r == (if !has_flag(old(self).regs.f, Z_FLAG) { 3u64 } else { 2u64 }),
            *final(self) == with_regs(*old(self), Registers { pc: if !has_flag(old(self).regs.f, Z_FLAG) { offset16(pc1(*old(self)), imm8(*old(self))) } else { pc1(*old(self)) }, ..old(self).regs }),
    {
        let b = self.fetch_byte();
        if !self.regs.flag(Z_FLAG) {
            self.cpu_jr(b);
            3
        } else {
            2
        }
    }

    /// JR C, n: conditional relative jump.
    pub fn JR_C_n(&mut self) -> (r: CycleType)
        ensures
            r == (if has_flag(old(self).regs.f, C_FLAG) { 3u64 } else { 2u64 }),
            *final(self) == with_regs(*old(self), Registers { pc: if has_flag(old(self).regs.f, C_FLAG) { offset16(pc1(*old(self)), imm8(*old(self))) } else { pc1(*old(self)) }, ..old(self).regs }),
    {
        let b = self.fetch_byte();
        if self.regs.flag(C_FLAG) {
            self.cpu_jr(b);
            3
        } else {
            2
        }
    }

    /// JR NC, n: conditional relative jump.
    pub fn JR_NC_n(&mut self) -> (r: CycleType)
        ensures
            r == (if !has_flag(old(self).regs.f, C_FLAG) { 3u64 } else { 2u64 }),
            *final(self) == with_regs(*old(self), Registers { pc: if !has_flag(old(self).regs.f, C_FLAG) { offset16(pc1(*old(self)), imm8(*old(self))) } else { pc1(*old(self)) }, ..old(self).regs }),
    {
        let b = self.fetch_byte();
        if !self.regs.flag(C_FLAG) {
            self.cpu_jr(b);
            3
        } else {
            2
        }
    }

    /// CALL nn: push the address of the next instruction and jump.
    pub fn CALL_nn(&mut self) -> (r: CycleType)
        ensures
            r == 6,
            final(self).regs == (Registers { pc: imm16(*old(self)), sp: sub2(old(self).regs.sp), ..old(self).regs }),
            word_written(old(self).mem, sub2(old(self).regs.sp), pc2(*old(self)), final(self).mem),
            same_control(*old(self), *final(self)),
    {
        let nn = self.fetch_word();
        self.cpu_call(nn);
        6
    }

    /// CALL Z, nn: conditional call.
    pub fn CALL_Z_nn(&mut self) -> (r: CycleType)
        ensures
            r == (if has_flag(old(self).regs.f, Z_FLAG) { 6u64 } else { 3u64 }),
            has_flag(old(self).regs.f, Z_FLAG) ==> final(self).regs == (Registers { pc: imm16(*old(self)), sp: sub2(old(self).regs.sp), ..old(self).regs }),
            has_flag(old(self).regs.f, Z_FLAG) ==> word_written(old(self).mem, sub2(old(self).regs.sp), pc2(*old(self)), final(self).mem),
            !(has_flag(old(self).regs.f, Z_FLAG)) ==> *final(self) == with_regs(*old(self), Registers { pc: pc2(*old(self)), ..old(self).regs }),
            same_control(*old(self), *final(self)),
    {
        let nn = self.fetch_word();
        if self.regs.flag(Z_FLAG) {
            self.cpu_call(nn);
            6
        } else {
            3
        }
    }

    /// CALL NZ, nn: conditional call.
    pub fn CALL_NZ_nn(&mut self) -> (r: CycleType)
        ensures
            r == (if !has_flag(old(self).regs.f, Z_FLAG) { 6u64 } else { 3u64 }),
            !has_flag(old(self).regs.f, Z_FLAG) ==> final(self).regs == (Registers { pc: imm16(*old(self)), sp: sub2(old(self).regs.sp), ..old(self).regs }),
            !has_flag(old(self).regs.f, Z_FLAG) ==> word_written(old(self).mem, sub2(old(self).regs.sp), pc2(*old(self)), final(self).mem),
            !(!has_flag(old(self).regs.f, Z_FLAG)) ==> *final(self) == with_regs(*old(self), Registers { pc: pc2(*old(self)), ..old(self).regs }),
            same_control(*old(self), *final(self)),
    {
        let nn = self.fetch_word();
        if !self.regs.flag(Z_FLAG) {
            self.cpu_call(nn);
            6
        } else {
            3
        }
    }

    /// CALL C, nn: conditional call.
    pub fn CALL_C_nn(&mut self) -> (r: CycleType)
        ensures
            r == (if has_flag(old(self).regs.f, C_FLAG) { 6u64 } else { 3u64 }),
            has_flag(old(self).regs.f, C_FLAG) ==> final(self).regs == (Registers { pc: imm16(*old(self)), sp: sub2(old(self).regs.sp), ..old(self).regs }),
            has_flag(old(self).regs.f, C_FLAG) ==> word_written(old(self).mem, sub2(old(self).regs.sp), pc2(*old(self)), final(self).mem),
            !(has_flag(old(self).regs.f, C_FLAG)) ==> *final(self) == with_regs(*old(self), Registers { pc: pc2(*old(self)), ..old(self).regs }),
            same_control(*old(self), *final(self)),
    {
        let nn = self.fetch_word();
        if self.regs.flag(C_FLAG) {
            self.cpu_call(nn);
            6
        } else {
            3
        }
    }

    /// CALL NC, nn: conditional call.
    pub fn CALL_NC_nn(&mut self) -> (r: CycleType)
        ensures
            r == (if !has_flag(old(self).regs.f, C_FLAG) { 6u64 } else { 3u64 }),
            !has_flag(old(self).regs.f, C_FLAG) ==> final(self).regs == (Registers { pc: imm16(*old(self)), sp: sub2(old(self).regs.sp), ..old(self).regs }),
            !has_flag(old(self).regs.f, C_FLAG) ==> word_written(old(self).mem, sub2(old(self).regs.sp), pc2(*old(self)), final(self).mem),
            !(!has_flag(old(self).regs.f, C_FLAG)) ==> *final(self) == with_regs(*old(self), Registers { pc: pc2(*old(self)), ..old(self).regs }),
            same_control(*old(self), *final(self)),
    {
        let nn = self.fetch_word();
        if !self.regs.flag(C_FLAG) {
            self.cpu_call(nn);
            6
        } else {
            3
        }
    }

    /// RET: pop the return address.
    pub fn RET(&mut self) -> (r: CycleType)
        ensures
            r == 4,
            *final(self) == with_regs(*old(self), Registers { pc: word_value(old(self).mem, old(self).regs.sp), sp: add2(old(self).regs.sp), ..old(self).regs }),
    {
        self.regs.pc = self.stack_pop();
        4
    }

    /// RETI: return and enable interrupts.
    pub fn RETI(&mut self) -> (r: CycleType)
        ensures
            r == 4,
            *final(self) == (Cpu { ime: true, ..with_regs(*old(self), Registers { pc: word_value(old(self).mem, old(self).regs.sp), sp: add2(old(self).regs.sp), ..old(self).regs }) }),
    {
        self.regs.pc = self.stack_pop();
        self.ime = true;
        4
    }

    /// RET Z: conditional return.
    pub fn RET_Z(&mut self) -> (r: CycleType)
        ensures
            r == (if has_flag(old(self).regs.f, Z_FLAG) { 5u64 } else { 2u64 }),
            has_flag(old(self).regs.f, Z_FLAG) ==> *final(self) == with_regs(*old(self), Registers { pc: word_value(old(self).mem, old(self).regs.sp), sp: add2(old(self).regs.sp), ..old(self).regs }),
            !(has_flag(old(self).regs.f, Z_FLAG)) ==> *final(self) == *old(self),
    {
        if self.regs.flag(Z_FLAG) {
            self.regs.pc = self.stack_pop();
            5
        } else {
            2
        }
    }

    /// RET NZ: conditional return.
    pub fn RET_NZ(&mut self) -> (r: CycleType)
        ensures
            r == (if !has_flag(old(self).regs.f, Z_FLAG) { 5u64 } else { 2u64 }),
            !has_flag(old(self).regs.f, Z_FLAG) ==> *final(self) == with_regs(*old(self), Registers { pc: word_value(old(self).mem, old(self).regs.sp), sp: add2(old(self).regs.sp), ..old(self).regs }),
            !(!has_flag(old(self).regs.f, Z_FLAG)) ==> *final(self) == *old(self),
    {
        if !self.regs.flag(Z_FLAG) {
            self.regs.pc = self.stack_pop();
            5
        } else {
            2
        }
    }

    /// RET C: conditional return.
    pub fn RET_C(&mut self) -> (r: CycleType)
        ensures
            r == (if has_flag(old(self).regs.f, C_FLAG) { 5u64 } else { 2u64 }),
            has_flag(old(self).regs.f, C_FLAG) ==> *final(self) == with_regs(*old(self), Registers { pc: word_value(old(self).mem, old(self).regs.sp), sp: add2(old(self).regs.sp), ..old(self).regs }),
            !(has_flag(old(self).regs.f, C_FLAG)) ==> *final(self) == *old(self),
    {
        if self.regs.flag(C_FLAG) {
            self.regs.pc = self.stack_pop();
            5
        } else {
            2
        }
    }

    /// RET NC: conditional return.
    pub fn RET_NC(&mut self) -> (r: CycleType)
        ensures
            r == (if !has_flag(old(self).regs.f, C_FLAG) { 5u64 } else { 2u64 }),
            !has_flag(old(self).regs.f, C_FLAG) ==> *final(self) == with_regs(*old(self), Registers { pc: word_value(old(self).mem, old(self).regs.sp), sp: add2(old(self).regs.sp), ..old(self).regs }),
            !(!has_flag(old(self).regs.f, C_FLAG)) ==> *final(self) == *old(self),
    {
        if !self.regs.flag(C_FLAG) {
            self.regs.pc = self.stack_pop();
            5
        } else {
            2
        }
    }

    /// RST: call one of the eight fixed vectors.
    pub fn RST_00H(&mut self) -> (r: CycleType)
        ensures
            r == 4,
            final(self).regs == (Registers { pc: 0x0000, sp: sub2(old(self).regs.sp), ..old(self).regs }),
            word_written(old(self).mem, sub2(old(self).regs.sp), old(self).regs.pc, final(self).mem),
            same_control(*old(self), *final(self)),
    {
        self.cpu_call(0x0000);
        4
    }

    pub fn RST_08H(&mut self) -> (r: CycleType)
        ensures
            r == 4,
            final(self).regs == (Registers { pc: 0x0008, sp: sub2(old(self).regs.sp), ..old(self).regs }),
            word_written(old(self).mem, sub2(old(self).regs.sp), old(self).regs.pc, final(self).mem),
            same_control(*old(self), *final(self)),
    {
        self.cpu_call(0x0008);
        4
    }

    pub fn RST_10H(&mut self) -> (r: CycleType)
        ensures
            r == 4,
            final(self).regs == (Registers { pc: 0x0010, sp: sub2(old(self).regs.sp), ..old(self).regs }),
            word_written(old(self).mem, sub2(old(self).regs.sp), old(self).regs.pc, final(self).mem),
            same_control(*old(self), *final(self)),
    {
        self.cpu_call(0x0010);
        4
    }

    pub fn RST_18H(&mut self) -> (r: CycleType)
        ensures
            r == 4,
            final(self).regs == (Registers { pc: 0x0018, sp: sub2(old(self).regs.sp), ..old(self).regs }),
            word_written(old(self).mem, sub2(old(self).regs.sp), old(self).regs.pc, final(self).mem),
            same_control(*old(self), *final(self)),
    {
        self.cpu_call(0x0018);
        4
    }

    pub fn RST_20H(&mut self) -> (r: CycleType)
        ensures
            r == 4,
            final(self).regs == (Registers { pc: 0x0020, sp: sub2(old(self).regs.sp), ..old(self).regs }),
            word_written(old(self).mem, sub2(old(self).regs.sp), old(self).regs.pc, final(self).mem),
            same_control(*old(self), *final(self)),
    {
        self.cpu_call(0x0020);
        4
    }

    pub fn RST_28H(&mut self) -> (r: CycleType)
        ensures
            r == 4,
            final(self).regs == (Registers { pc: 0x0028, sp: sub2(old(self).regs.sp), ..old(self).regs }),
            word_written(old(self).mem, sub2(old(self).regs.sp), old(self).regs.pc, final(self).mem),
            same_control(*old(self), *final(self)),
    {
        self.cpu_call(0x0028);
        4
    }

    pub fn RST_30H(&mut self) -> (r: CycleType)
        ensures
            r == 4,
            final(self).regs == (Registers { pc: 0x0030, sp: sub2(old(self).regs.sp), ..old(self).regs }),
            word_written(old(self).mem, sub2(old(self).regs.sp), old(self).regs.pc, final(self).mem),
            same_control(*old(self), *final(self)),
    {
        self.cpu_call(0x0030);
        4
    }

    pub fn RST_38H(&mut self) -> (r: CycleType)
        ensures
            r == 4,
            final(self).regs == (Registers { pc: 0x0038, sp: sub2(old(self).regs.sp), ..old(self).regs }),
            word_written(old(self).mem, sub2(old(self).regs.sp), old(self).regs.pc, final(self).mem),
            same_control(*old(self), *final(self)),
    {
        self.cpu_call(0x0038);
        4
    }
}

} // verus!
