use vstd::prelude::*;
use super::{
    at_hl, bit_flags, out_left, out_right, reset_bit, rl_value, rlc_value, rr_value, rrc_value,
    same_control, set_bit, shift_flags, sla_value, sra_value, srl_value, swap_value, with_regs, Cpu,
    CycleType,
};
use crate::memory::Memory;
use crate::mmu::MemoryManagementUnit;
use crate::registers::Registers;

verus! {

// The instructions behind the 0xCB prefix. (HL) stands for the byte at HL.
impl<M: Memory + MemoryManagementUnit> Cpu<M> {
    /// RLC r: rotate left.
    pub fn RLC_r_b(&mut self) -> (r: CycleType)
        ensures
            r == 2,
            *final(self) == with_regs(*old(self), Registers { b: rlc_value(old(self).regs.b), f: shift_flags(rlc_value(old(self).regs.b), out_left(old(self).regs.b)), ..old(self).regs }),
    {
        let v = self.regs.b;
        self.regs.b = self.alu_rlc(v);
        2
    }

    pub fn RLC_r_c(&mut self) -> (r: CycleType)
        ensures
            r == 2,
            *final(self) == with_regs(*old(self), Registers { c: rlc_value(old(self).regs.c), f: shift_flags(rlc_value(old(self).regs.c), out_left(old(self).regs.c)), ..old(self).regs }),
    {
        let v = self.regs.c;
        self.regs.c = self.alu_rlc(v);
        2
    }

    pub fn RLC_r_d(&mut self) -> (r: CycleType)
        ensures
            r == 2,
            *final(self) == with_regs(*old(self), Registers { d: rlc_value(old(self).regs.d), f: shift_flags(rlc_value(old(self).regs.d), out_left(old(self).regs.d)), ..old(self).regs }),
    {
        let v = self.regs.d;
        self.regs.d = self.alu_rlc(v);
        2
    }

    pub fn RLC_r_e(&mut self) -> (r: CycleType)
        ensures
            r == 2,
            *final(self) == with_regs(*old(self), Registers { e: rlc_value(old(self).regs.e), f: shift_flags(rlc_value(old(self).regs.e), out_left(old(self).regs.e)), ..old(self).regs }),
    {
        let v = self.regs.e;
        self.regs.e = self.alu_rlc(v);
        2
    }

    pub fn RLC_r_h(&mut self) -> (r: CycleType)
        ensures
            r == 2,
            *final(self) == with_regs(*old(self), Registers { h: rlc_value(old(self).regs.h), f: shift_flags(rlc_value(old(self).regs.h), out_left(old(self).regs.h)), ..old(self).regs }),
    {
        let v = self.regs.h;
        self.regs.h = self.alu_rlc(v);
        2
    }

    pub fn RLC_r_l(&mut self) -> (r: CycleType)
        ensures
            r == 2,
            *final(self) == with_regs(*old(self), Registers { l: rlc_value(old(self).regs.l), f: shift_flags(rlc_value(old(self).regs.l), out_left(old(self).regs.l)), ..old(self).regs }),
    {
        let v = self.regs.l;
        self.regs.l = self.alu_rlc(v);
        2
    }

    pub fn RLC_r_a(&mut self) -> (r: CycleType)
        ensures
            r == 2,
            *final(self) == with_regs(*old(self), Registers { a: rlc_value(old(self).regs.a), f: shift_flags(rlc_value(old(self).regs.a), out_left(old(self).regs.a)), ..old(self).regs }),
    {
        let v = self.regs.a;
        self.regs.a = self.alu_rlc(v);
        2
    }

    /// RLC (HL): rotate left, on the byte at HL.
    pub fn RLC_HLm(&mut self) -> (r: CycleType)
        ensures
            r == 4,
            final(self).regs == (Registers { f: shift_flags(rlc_value(at_hl(*old(self))), out_left(at_hl(*old(self)))), ..old(self).regs }),
            old(self).mem.written(old(self).regs.spec_hl(), rlc_value(at_hl(*old(self))), final(self).mem),
            same_control(*old(self), *final(self)),
    {
        let hl = self.regs.hl();
        let v = self.mem.read_byte(hl);
        let r = self.alu_rlc(v);
        self.mem.write_byte(hl, r);
        4
    }

    /// RRC r: rotate right.
    pub fn RRC_r_b(&mut self) -> (r: CycleType)
        ensures
            r == 2,
            *final(self) == with_regs(*old(self), Registers { b: rrc_value(old(self).regs.b), f: shift_flags(rrc_value(old(self).regs.b), out_right(old(self).regs.b)), ..old(self).regs }),
    {
        let v = self.regs.b;
        self.regs.b = self.alu_rrc(v);
        2
    }

    pub fn RRC_r_c(&mut self) -> (r: CycleType)
        ensures
            r == 2,
            *final(self) == with_regs(*old(self), Registers { c: rrc_value(old(self).regs.c), f: shift_flags(rrc_value(old(self).regs.c), out_right(old(self).regs.c)), ..old(self).regs }),
    {
        let v = self.regs.c;
        self.regs.c = self.alu_rrc(v);
        2
    }

    pub fn RRC_r_d(&mut self) -> (r: CycleType)
        ensures
            r == 2,
            *final(self) == with_regs(*old(self), Registers { d: rrc_value(old(self).regs.d), f: shift_flags(rrc_value(old(self).regs.d), out_right(old(self).regs.d)), ..old(self).regs }),
    {
        let v = self.regs.d;
        self.regs.d = self.alu_rrc(v);
        2
    }

    pub fn RRC_r_e(&mut self) -> (r: CycleType)
        ensures
            r == 2,
            *final(self) == with_regs(*old(self), Registers { e: rrc_value(old(self).regs.e), f: shift_flags(rrc_value(old(self).regs.e), out_right(old(self).regs.e)), ..old(self).regs }),
    {
        let v = self.regs.e;
        self.regs.e = self.alu_rrc(v);
        2
    }

    pub fn RRC_r_h(&mut self) -> (r: CycleType)
        ensures
            r == 2,
            *final(self) == with_regs(*old(self), Registers { h: rrc_value(old(self).regs.h), f: shift_flags(rrc_value(old(self).regs.h), out_right(old(self).regs.h)), ..old(self).regs }),
    {
        let v = self.regs.h;
        self.regs.h = self.alu_rrc(v);
        2
    }

    pub fn RRC_r_l(&mut self) -> (r: CycleType)
        ensures
            r == 2,
            *final(self) == with_regs(*old(self), Registers { l: rrc_value(old(self).regs.l), f: shift_flags(rrc_value(old(self).regs.l), out_right(old(self).regs.l)), ..old(self).regs }),
    {
        let v = self.regs.l;
        self.regs.l = self.alu_rrc(v);
        2
    }

    pub fn RRC_r_a(&mut self) -> (r: CycleType)
        ensures
            r == 2,
            *final(self) == with_regs(*old(self), Registers { a: rrc_value(old(self).regs.a), f: shift_flags(rrc_value(old(self).regs.a), out_right(old(self).regs.a)), ..old(self).regs }),
    {
        let v = self.regs.a;
        self.regs.a = self.alu_rrc(v);
        2
    }

    /// RRC (HL): rotate right, on the byte at HL.
    pub fn RRC_HLm(&mut self) -> (r: CycleType)
        ensures
            r == 4,
            final(self).regs == (Registers { f: shift_flags(rrc_value(at_hl(*old(self))), out_right(at_hl(*old(self)))), ..old(self).regs }),
            old(self).mem.written(old(self).regs.spec_hl(), rrc_value(at_hl(*old(self))), final(self).mem),
            same_control(*old(self), *final(self)),
    {
        let hl = self.regs.hl();
        let v = self.mem.read_byte(hl);
        let r = self.alu_rrc(v);
        self.mem.write_byte(hl, r);
        4
    }

    /// RL r: rotate left through the carry.
    pub fn RL_r_b(&mut self) -> (r: CycleType)
        ensures
            r == 2,
            *final(self) == with_regs(*old(self), Registers { b: rl_value(old(self).regs.b, old(self).regs.f), f: shift_flags(rl_value(old(self).regs.b, old(self).regs.f), out_left(old(self).regs.b)), ..old(self).regs }),
    {
        let v = self.regs.b;
        self.regs.b = self.alu_rl(v);
        2
    }

    pub fn RL_r_c(&mut self) -> (r: CycleType)
        ensures
            r == 2,
            *final(self) == with_regs(*old(self), Registers { c: rl_value(old(self).regs.c, old(self).regs.f), f: shift_flags(rl_value(old(self).regs.c, old(self).regs.f), out_left(old(self).regs.c)), ..old(self).regs }),
    {
        let v = self.regs.c;
        self.regs.c = self.alu_rl(v);
        2
    }

    pub fn RL_r_d(&mut self) -> (r: CycleType)
        ensures
            r == 2,
            *final(self) == with_regs(*old(self), Registers { d: rl_value(old(self).regs.d, old(self).regs.f), f: shift_flags(rl_value(old(self).regs.d, old(self).regs.f), out_left(old(self).regs.d)), ..old(self).regs }),
    {
        let v = self.regs.d;
        self.regs.d = self.alu_rl(v);
        2
    }

    pub fn RL_r_e(&mut self) -> (r: CycleType)
        ensures
            r == 2,
            *final(self) == with_regs(*old(self), Registers { e: rl_value(old(self).regs.e, old(self).regs.f), f: shift_flags(rl_value(old(self).regs.e, old(self).regs.f), out_left(old(self).regs.e)), ..old(self).regs }),
    {
        let v = self.regs.e;
        self.regs.e = self.alu_rl(v);
        2
    }

    pub fn RL_r_h(&mut self) -> (r: CycleType)
        ensures
            r == 2,
            *final(self) == with_regs(*old(self), Registers { h: rl_value(old(self).regs.h, old(self).regs.f), f: shift_flags(rl_value(old(self).regs.h, old(self).regs.f), out_left(old(self).regs.h)), ..old(self).regs }),
    {
        let v = self.regs.h;
        self.regs.h = self.alu_rl(v);
        2
    }

    pub fn RL_r_l(&mut self) -> (r: CycleType)
        ensures
            r == 2,
            *final(self) == with_regs(*old(self), Registers { l: rl_value(old(self).regs.l, old(self).regs.f), f: shift_flags(rl_value(old(self).regs.l, old(self).regs.f), out_left(old(self).regs.l)), ..old(self).regs }),
    {
        let v = self.regs.l;
        self.regs.l = self.alu_rl(v);
        2
    }

    pub fn RL_r_a(&mut self) -> (r: CycleType)
        ensures
            r == 2,
            *final(self) == with_regs(*old(self), Registers { a: rl_value(old(self).regs.a, old(self).regs.f), f: shift_flags(rl_value(old(self).regs.a, old(self).regs.f), out_left(old(self).regs.a)), ..old(self).regs }),
    {
        let v = self.regs.a;
        self.regs.a = self.alu_rl(v);
        2
    }

    /// RL (HL): rotate left through the carry, on the byte at HL.
    pub fn RL_HLm(&mut self) -> (r: CycleType)
        ensures
            r == 4,
            final(self).regs == (Registers { f: shift_flags(rl_value(at_hl(*old(self)), old(self).regs.f), out_left(at_hl(*old(self)))), ..old(self).regs }),
            old(self).mem.written(old(self).regs.spec_hl(), rl_value(at_hl(*old(self)), old(self).regs.f), final(self).mem),
            same_control(*old(self), *final(self)),
    {
        let hl = self.regs.hl();
        let v = self.mem.read_byte(hl);
        let r = self.alu_rl(v);
        self.mem.write_byte(hl, r);
        4
    }

    /// RR r: rotate right through the carry.
    pub fn RR_r_b(&mut self) -> (r: CycleType)
        ensures
            r == 2,
            *final(self) == with_regs(*old(self), Registers { b: rr_value(old(self).regs.b, old(self).regs.f), f: shift_flags(rr_value(old(self).regs.b, old(self).regs.f), out_right(old(self).regs.b)), ..old(self).regs }),
    {
        let v = self.regs.b;
        self.regs.b = self.alu_rr(v);
        2
    }

    pub fn RR_r_c(&mut self) -> (r: CycleType)
        ensures
            r == 2,
            *final(self) == with_regs(*old(self), Registers { c: rr_value(old(self).regs.c, old(self).regs.f), f: shift_flags(rr_value(old(self).regs.c, old(self).regs.f), out_right(old(self).regs.c)), ..old(self).regs }),
    {
        let v = self.regs.c;
        self.regs.c = self.alu_rr(v);
        2
    }

    pub fn RR_r_d(&mut self) -> (r: CycleType)
        ensures
            r == 2,
            *final(self) == with_regs(*old(self), Registers { d: rr_value(old(self).regs.d, old(self).regs.f), f: shift_flags(rr_value(old(self).regs.d, old(self).regs.f), out_right(old(self).regs.d)), ..old(self).regs }),
    {
        let v = self.regs.d;
        self.regs.d = self.alu_rr(v);
        2
    }

    pub fn RR_r_e(&mut self) -> (r: CycleType)
        ensures
            r == 2,
            *final(self) == with_regs(*old(self), Registers { e: rr_value(old(self).regs.e, old(self).regs.f), f: shift_flags(rr_value(old(self).regs.e, old(self).regs.f), out_right(old(self).regs.e)), ..old(self).regs }),
    {
        let v = self.regs.e;
        self.regs.e = self.alu_rr(v);
        2
    }

    pub fn RR_r_h(&mut self) -> (r: CycleType)
        ensures
            r == 2,
            *final(self) == with_regs(*old(self), Registers { h: rr_value(old(self).regs.h, old(self).regs.f), f: shift_flags(rr_value(old(self).regs.h, old(self).regs.f), out_right(old(self).regs.h)), ..old(self).regs }),
    {
        let v = self.regs.h;
        self.regs.h = self.alu_rr(v);
        2
    }

    pub fn RR_r_l(&mut self) -> (r: CycleType)
        ensures
            r == 2,
            *final(self) == with_regs(*old(self), Registers { l: rr_value(old(self).regs.l, old(self).regs.f), f: shift_flags(rr_value(old(self).regs.l, old(self).regs.f), out_right(old(self).regs.l)), ..old(self).regs }),
    {
        let v = self.regs.l;
        self.regs.l = self.alu_rr(v);
        2
    }

    pub fn RR_r_a(&mut self) -> (r: CycleType)
        ensures
            r == 2,
            *final(self) == with_regs(*old(self), Registers { a: rr_value(old(self).regs.a, old(self).regs.f), f: shift_flags(rr_value(old(self).regs.a, old(self).regs.f), out_right(old(self).regs.a)), ..old(self).regs }),
    {
        let v = self.regs.a;
        self.regs.a = self.alu_rr(v);
        2
    }

    /// RR (HL): rotate right through the carry, on the byte at HL.
    pub fn RR_HLm(&mut self) -> (r: CycleType)
        ensures
            r == 4,
            final(self).regs == (Registers { f: shift_flags(rr_value(at_hl(*old(self)), old(self).regs.f), out_right(at_hl(*old(self)))), ..old(self).regs }),
            old(self).mem.written(old(self).regs.spec_hl(), rr_value(at_hl(*old(self)), old(self).regs.f), final(self).mem),
            same_control(*old(self), *final(self)),
    {
        let hl = self.regs.hl();
        let v = self.mem.read_byte(hl);
        let r = self.alu_rr(v);
        self.mem.write_byte(hl, r);
        4
    }

    /// SLA r: shift left arithmetic.
    pub fn SLA_r_b(&mut self) -> (r: CycleType)
        ensures
            r == 2,
            *final(self) == with_regs(*old(self), Registers { b: sla_value(old(self).regs.b), f: shift_flags(sla_value(old(self).regs.b), out_left(old(self).regs.b)), ..old(self).regs }),
    {
        let v = self.regs.b;
        self.regs.b = self.alu_sla(v);
        2
    }

    pub fn SLA_r_c(&mut self) -> (r: CycleType)
        ensures
            r == 2,
            *final(self) == with_regs(*old(self), Registers { c: sla_value(old(self).regs.c), f: shift_flags(sla_value(old(self).regs.c), out_left(old(self).regs.c)), ..old(self).regs }),
    {
        let v = self.regs.c;
        self.regs.c = self.alu_sla(v);
        2
    }

    pub fn SLA_r_d(&mut self) -> (r: CycleType)
        ensures
            r == 2,
            *final(self) == with_regs(*old(self), Registers { d: sla_value(old(self).regs.d), f: shift_flags(sla_value(old(self).regs.d), out_left(old(self).regs.d)), ..old(self).regs }),
    {
        let v = self.regs.d;
        self.regs.d = self.alu_sla(v);
        2
    }

    pub fn SLA_r_e(&mut self) -> (r: CycleType)
        ensures
            r == 2,
            *final(self) == with_regs(*old(self), Registers { e: sla_value(old(self).regs.e), f: shift_flags(sla_value(old(self).regs.e), out_left(old(self).regs.e)), ..old(self).regs }),
    {
        let v = self.regs.e;
        self.regs.e = self.alu_sla(v);
        2
    }

    pub fn SLA_r_h(&mut self) -> (r: CycleType)
        ensures
            r == 2,
            *final(self) == with_regs(*old(self), Registers { h: sla_value(old(self).regs.h), f: shift_flags(sla_value(old(self).regs.h), out_left(old(self).regs.h)), ..old(self).regs }),
    {
        let v = self.regs.h;
        self.regs.h = self.alu_sla(v);
        2
    }

    pub fn SLA_r_l(&mut self) -> (r: CycleType)
        ensures
            r == 2,
            *final(self) == with_regs(*old(self), Registers { l: sla_value(old(self).regs.l), f: shift_flags(sla_value(old(self).regs.l), out_left(old(self).regs.l)), ..old(self).regs }),
    {
        let v = self.regs.l;
        self.regs.l = self.alu_sla(v);
        2
    }

    pub fn SLA_r_a(&mut self) -> (r: CycleType)
        ensures
            r == 2,
            *final(self) == with_regs(*old(self), Registers { a: sla_value(old(self).regs.a), f: shift_flags(sla_value(old(self).regs.a), out_left(old(self).regs.a)), ..old(self).regs }),
    {
        let v = self.regs.a;
        self.regs.a = self.alu_sla(v);
        2
    }

    /// SLA (HL): shift left arithmetic, on the byte at HL.
    pub fn SLA_HLm(&mut self) -> (r: CycleType)
        ensures
            r == 4,
            final(self).regs == (Registers { f: shift_flags(sla_value(at_hl(*old(self))), out_left(at_hl(*old(self)))), ..old(self).regs }),
            old(self).mem.written(old(self).regs.spec_hl(), sla_value(at_hl(*old(self))), final(self).mem),
            same_control(*old(self), *final(self)),
    {
        let hl = self.regs.hl();
        let v = self.mem.read_byte(hl);
        let r = self.alu_sla(v);
        self.mem.write_byte(hl, r);
        4
    }

    /// SRA r: shift right arithmetic.
    pub fn SRA_r_b(&mut self) -> (r: CycleType)
        ensures
            r == 2,
            *final(self) == with_regs(*old(self), Registers { b: sra_value(old(self).regs.b), f: shift_flags(sra_value(old(self).regs.b), out_right(old(self).regs.b)), ..old(self).regs }),
    {
        let v = self.regs.b;
        self.regs.b = self.alu_sra(v);
        2
    }

    pub fn SRA_r_c(&mut self) -> (r: CycleType)
        ensures
            r == 2,
            *final(self) == with_regs(*old(self), Registers { c: sra_value(old(self).regs.c), f: shift_flags(sra_value(old(self).regs.c), out_right(old(self).regs.c)), ..old(self).regs }),
    {
        let v = self.regs.c;
        self.regs.c = self.alu_sra(v);
        2
    }

    pub fn SRA_r_d(&mut self) -> (r: CycleType)
        ensures
            r == 2,
            *final(self) == with_regs(*old(self), Registers { d: sra_value(old(self).regs.d), f: shift_flags(sra_value(old(self).regs.d), out_right(old(self).regs.d)), ..old(self).regs }),
    {
        let v = self.regs.d;
        self.regs.d = self.alu_sra(v);
        2
    }

    pub fn SRA_r_e(&mut self) -> (r: CycleType)
        ensures
            r == 2,
            *final(self) == with_regs(*old(self), Registers { e: sra_value(old(self).regs.e), f: shift_flags(sra_value(old(self).regs.e), out_right(old(self).regs.e)), ..old(self).regs }),
    {
        let v = self.regs.e;
        self.regs.e = self.alu_sra(v);
        2
    }

    pub fn SRA_r_h(&mut self) -> (r: CycleType)
        ensures
            r == 2,
            *final(self) == with_regs(*old(self), Registers { h: sra_value(old(self).regs.h), f: shift_flags(sra_value(old(self).regs.h), out_right(old(self).regs.h)), ..old(self).regs }),
    {
        let v = self.regs.h;
        self.regs.h = self.alu_sra(v);
        2
    }

    pub fn SRA_r_l(&mut self) -> (r: CycleType)
        ensures
            r == 2,
            *final(self) == with_regs(*old(self), Registers { l: sra_value(old(self).regs.l), f: shift_flags(sra_value(old(self).regs.l), out_right(old(self).regs.l)), ..old(self).regs }),
    {
        let v = self.regs.l;
        self.regs.l = self.alu_sra(v);
        2
    }

    pub fn SRA_r_a(&mut self) -> (r: CycleType)
        ensures
            r == 2,
            *final(self) == with_regs(*old(self), Registers { a: sra_value(old(self).regs.a), f: shift_flags(sra_value(old(self).regs.a), out_right(old(self).regs.a)), ..old(self).regs }),
    {
        let v = self.regs.a;
        self.regs.a = self.alu_sra(v);
        2
    }

    /// SRA (HL): shift right arithmetic, on the byte at HL.
    pub fn SRA_HLm(&mut self) -> (r: CycleType)
        ensures
            r == 4,
            final(self).regs == (Registers { f: shift_flags(sra_value(at_hl(*old(self))), out_right(at_hl(*old(self)))), ..old(self).regs }),
            old(self).mem.written(old(self).regs.spec_hl(), sra_value(at_hl(*old(self))), final(self).mem),
            same_control(*old(self), *final(self)),
    {
        let hl = self.regs.hl();
        let v = self.mem.read_byte(hl);
        let r = self.alu_sra(v);
        self.mem.write_byte(hl, r);
        4
    }

    /// SRL r: shift right logical.
    pub fn SRL_r_b(&mut self) -> (r: CycleType)
        ensures
            r == 2,
            *final(self) == with_regs(*old(self), Registers { b: srl_value(old(self).regs.b), f: shift_flags(srl_value(old(self).regs.b), out_right(old(self).regs.b)), ..old(self).regs }),
    {
        let v = self.regs.b;
        self.regs.b = self.alu_srl(v);
        2
    }

    pub fn SRL_r_c(&mut self) -> (r: CycleType)
        ensures
            r == 2,
            *final(self) == with_regs(*old(self), Registers { c: srl_value(old(self).regs.c), f: shift_flags(srl_value(old(self).regs.c), out_right(old(self).regs.c)), ..old(self).regs }),
    {
        let v = self.regs.c;
        self.regs.c = self.alu_srl(v);
        2
    }

    pub fn SRL_r_d(&mut self) -> (r: CycleType)
        ensures
            r == 2,
            *final(self) == with_regs(*old(self), Registers { d: srl_value(old(self).regs.d), f: shift_flags(srl_value(old(self).regs.d), out_right(old(self).regs.d)), ..old(self).regs }),
    {
        let v = self.regs.d;
        self.regs.d = self.alu_srl(v);
        2
    }

    pub fn SRL_r_e(&mut self) -> (r: CycleType)
        ensures
            r == 2,
            *final(self) == with_regs(*old(self), Registers { e: srl_value(old(self).regs.e), f: shift_flags(srl_value(old(self).regs.e), out_right(old(self).regs.e)), ..old(self).regs }),
    {
        let v = self.regs.e;
        self.regs.e = self.alu_srl(v);
        2
    }

    pub fn SRL_r_h(&mut self) -> (r: CycleType)
        ensures
            r == 2,
            *final(self) == with_regs(*old(self), Registers { h: srl_value(old(self).regs.h), f: shift_flags(srl_value(old(self).regs.h), out_right(old(self).regs.h)), ..old(self).regs }),
    {
        let v = self.regs.h;
        self.regs.h = self.alu_srl(v);
        2
    }

    pub fn SRL_r_l(&mut self) -> (r: CycleType)
        ensures
            r == 2,
            *final(self) == with_regs(*old(self), Registers { l: srl_value(old(self).regs.l), f: shift_flags(srl_value(old(self).regs.l), out_right(old(self).regs.l)), ..old(self).regs }),
    {
        let v = self.regs.l;
        self.regs.l = self.alu_srl(v);
        2
    }

    pub fn SRL_r_a(&mut self) -> (r: CycleType)
        ensures
            r == 2,
            *final(self) == with_regs(*old(self), Registers { a: srl_value(old(self).regs.a), f: shift_flags(srl_value(old(self).regs.a), out_right(old(self).regs.a)), ..old(self).regs }),
    {
        let v = self.regs.a;
        self.regs.a = self.alu_srl(v);
        2
    }

    /// SRL (HL): shift right logical, on the byte at HL.
    pub fn SRL_HLm(&mut self) -> (r: CycleType)
        ensures
            r == 4,
            final(self).regs == (Registers { f: shift_flags(srl_value(at_hl(*old(self))), out_right(at_hl(*old(self)))), ..old(self).regs }),
            old(self).mem.written(old(self).regs.spec_hl(), srl_value(at_hl(*old(self))), final(self).mem),
            same_control(*old(self), *final(self)),
    {
        let hl = self.regs.hl();
        let v = self.mem.read_byte(hl);
        let r = self.alu_srl(v);
        self.mem.write_byte(hl, r);
        4
    }

    /// SWAP r: exchange the nibbles.
    pub fn SWAP_r_b(&mut self) -> (r: CycleType)
        ensures
            r == 2,
            *final(self) == with_regs(*old(self), Registers { b: swap_value(old(self).regs.b), f: shift_flags(swap_value(old(self).regs.b), false), ..old(self).regs }),
    {
        let v = self.regs.b;
        self.regs.b = self.alu_swap(v);
        2
    }

    pub fn SWAP_r_c(&mut self) -> (r: CycleType)
        ensures
            r == 2,
            *final(self) == with_regs(*old(self), Registers { c: swap_value(old(self).regs.c), f: shift_flags(swap_value(old(self).regs.c), false), ..old(self).regs }),
    {
        let v = self.regs.c;
        self.regs.c = self.alu_swap(v);
        2
    }

    pub fn SWAP_r_d(&mut self) -> (r: CycleType)
        ensures
            r == 2,
            *final(self) == with_regs(*old(self), Registers { d: swap_value(old(self).regs.d), f: shift_flags(swap_value(old(self).regs.d), false), ..old(self).regs }),
    {
        let v = self.regs.d;
        self.regs.d = self.alu_swap(v);
        2
    }

    pub fn SWAP_r_e(&mut self) -> (r: CycleType)
        ensures
            r == 2,
            *final(self) == with_regs(*old(self), Registers { e: swap_value(old(self).regs.e), f: shift_flags(swap_value(old(self).regs.e), false), ..old(self).regs }),
    {
        let v = self.regs.e;
        self.regs.e = self.alu_swap(v);
        2
    }

    pub fn SWAP_r_h(&mut self) -> (r: CycleType)
        ensures
            r == 2,
            *final(self) == with_regs(*old(self), Registers { h: swap_value(old(self).regs.h), f: shift_flags(swap_value(old(self).regs.h), false), ..old(self).regs }),
    {
        let v = self.regs.h;
        self.regs.h = self.alu_swap(v);
        2
    }

    pub fn SWAP_r_l(&mut self) -> (r: CycleType)
        ensures
            r == 2,
            *final(self) == with_regs(*old(self), Registers { l: swap_value(old(self).regs.l), f: shift_flags(swap_value(old(self).regs.l), false), ..old(self).regs }),
    {
        let v = self.regs.l;
        self.regs.l = self.alu_swap(v);
        2
    }

    pub fn SWAP_r_a(&mut self) -> (r: CycleType)
        ensures
            r == 2,
            *final(self) == with_regs(*old(self), Registers { a: swap_value(old(self).regs.a), f: shift_flags(swap_value(old(self).regs.a), false), ..old(self).regs }),
    {
        let v = self.regs.a;
        self.regs.a = self.alu_swap(v);
        2
    }

    /// SWAP (HL): exchange the nibbles, on the byte at HL.
    pub fn SWAP_HLm(&mut self) -> (r: CycleType)
        ensures
            r == 4,
            final(self).regs == (Registers { f: shift_flags(swap_value(at_hl(*old(self))), false), ..old(self).regs }),
            old(self).mem.written(old(self).regs.spec_hl(), swap_value(at_hl(*old(self))), final(self).mem),
            same_control(*old(self), *final(self)),
    {
        let hl = self.regs.hl();
        let v = self.mem.read_byte(hl);
        let r = self.alu_swap(v);
        self.mem.write_byte(hl, r);
        4
    }

    /// BIT 0, r: test bit 0.
    pub fn BIT_0_r_b(&mut self) -> (r: CycleType)
        ensures
            r == 2,
            *final(self) == with_regs(*old(self), Registers { f: bit_flags(old(self).regs.b, 0, old(self).regs.f), ..old(self).regs }),
    {
        let v = self.regs.b;
        self.alu_bit(v, 0);
        2
    }

    pub fn BIT_0_r_c(&mut self) -> (r: CycleType)
        ensures
            r == 2,
            *final(self) == with_regs(*old(self), Registers { f: bit_flags(old(self).regs.c, 0, old(self).regs.f), ..old(self).regs }),
    {
        let v = self.regs.c;
        self.alu_bit(v, 0);
        2
    }

    pub fn BIT_0_r_d(&mut self) -> (r: CycleType)
        ensures
            r == 2,
            *final(self) == with_regs(*old(self), Registers { f: bit_flags(old(self).regs.d, 0, old(self).regs.f), ..old(self).regs }),
    {
        let v = self.regs.d;
        self.alu_bit(v, 0);
        2
    }

    pub fn BIT_0_r_e(&mut self) -> (r: CycleType)
        ensures
            r == 2,
            *final(self) == with_regs(*old(self), Registers { f: bit_flags(old(self).regs.e, 0, old(self).regs.f), ..old(self).regs }),
    {
        let v = self.regs.e;
        self.alu_bit(v, 0);
        2
    }

    pub fn BIT_0_r_h(&mut self) -> (r: CycleType)
        ensures
            r == 2,
            *final(self) == with_regs(*old(self), Registers { f: bit_flags(old(self).regs.h, 0, old(self).regs.f), ..old(self).regs }),
    {
        let v = self.regs.h;
        self.alu_bit(v, 0);
        2
    }

    pub fn BIT_0_r_l(&mut self) -> (r: CycleType)
        ensures
            r == 2,
            *final(self) == with_regs(*old(self), Registers { f: bit_flags(old(self).regs.l, 0, old(self).regs.f), ..old(self).regs }),
    {
        let v = self.regs.l;
        self.alu_bit(v, 0);
        2
    }

    pub fn BIT_0_r_a(&mut self) -> (r: CycleType)
        ensures
            r == 2,
            *final(self) == with_regs(*old(self), Registers { f: bit_flags(old(self).regs.a, 0, old(self).regs.f), ..old(self).regs }),
    {
        let v = self.regs.a;
        self.alu_bit(v, 0);
        2
    }

    pub fn BIT_0_HLm(&mut self) -> (r: CycleType)
        ensures
            r == 3,
            *final(self) == with_regs(*old(self), Registers { f: bit_flags(at_hl(*old(self)), 0, old(self).regs.f), ..old(self).regs }),
    {
        let hl = self.regs.hl();
        let v = self.mem.read_byte(hl);
        self.alu_bit(v, 0);
        3
    }

    /// BIT 1, r: test bit 1.
    pub fn BIT_1_r_b(&mut self) -> (r: CycleType)
        ensures
            r == 2,
            *final(self) == with_regs(*old(self), Registers { f: bit_flags(old(self).regs.b, 1, old(self).regs.f), ..old(self).regs }),
    {
        let v = self.regs.b;
        self.alu_bit(v, 1);
        2
    }

    pub fn BIT_1_r_c(&mut self) -> (r: CycleType)
        ensures
            r == 2,
            *final(self) == with_regs(*old(self), Registers { f: bit_flags(old(self).regs.c, 1, old(self).regs.f), ..old(self).regs }),
    {
        let v = self.regs.c;
        self.alu_bit(v, 1);
        2
    }

    pub fn BIT_1_r_d(&mut self) -> (r: CycleType)
        ensures
            r == 2,
            *final(self) == with_regs(*old(self), Registers { f: bit_flags(old(self).regs.d, 1, old(self).regs.f), ..old(self).regs }),
    {
        let v = self.regs.d;
        self.alu_bit(v, 1);
        2
    }

    pub fn BIT_1_r_e(&mut self) -> (r: CycleType)
        ensures
            r == 2,
            *final(self) == with_regs(*old(self), Registers { f: bit_flags(old(self).regs.e, 1, old(self).regs.f), ..old(self).regs }),
    {
        let v = self.regs.e;
        self.alu_bit(v, 1);
        2
    }

    pub fn BIT_1_r_h(&mut self) -> (r: CycleType)
        ensures
            r == 2,
            *final(self) == with_regs(*old(self), Registers { f: bit_flags(old(self).regs.h, 1, old(self).regs.f), ..old(self).regs }),
    {
        let v = self.regs.h;
        self.alu_bit(v, 1);
        2
    }

    pub fn BIT_1_r_l(&mut self) -> (r: CycleType)
        ensures
            r == 2,
            *final(self) == with_regs(*old(self), Registers { f: bit_flags(old(self).regs.l, 1, old(self).regs.f), ..old(self).regs }),
    {
        let v = self.regs.l;
        self.alu_bit(v, 1);
        2
    }

    pub fn BIT_1_r_a(&mut self) -> (r: CycleType)
        ensures
            r == 2,
            *final(self) == with_regs(*old(self), Registers { f: bit_flags(old(self).regs.a, 1, old(self).regs.f), ..old(self).regs }),
    {
        let v = self.regs.a;
        self.alu_bit(v, 1);
        2
    }

    pub fn BIT_1_HLm(&mut self) -> (r: CycleType)
        ensures
            r == 3,
            *final(self) == with_regs(*old(self), Registers { f: bit_flags(at_hl(*old(self)), 1, old(self).regs.f), ..old(self).regs }),
    {
        let hl = self.regs.hl();
        let v = self.mem.read_byte(hl);
        self.alu_bit(v, 1);
        3
    }

    /// BIT 2, r: test bit 2.
    pub fn BIT_2_r_b(&mut self) -> (r: CycleType)
        ensures
            r == 2,
            *final(self) == with_regs(*old(self), Registers { f: bit_flags(old(self).regs.b, 2, old(self).regs.f), ..old(self).regs }),
    {
        let v = self.regs.b;
        self.alu_bit(v, 2);
        2
    }

    pub fn BIT_2_r_c(&mut self) -> (r: CycleType)
        ensures
            r == 2,
            *final(self) == with_regs(*old(self), Registers { f: bit_flags(old(self).regs.c, 2, old(self).regs.f), ..old(self).regs }),
    {
        let v = self.regs.c;
        self.alu_bit(v, 2);
        2
    }

    pub fn BIT_2_r_d(&mut self) -> (r: CycleType)
        ensures
            r == 2,
            *final(self) == with_regs(*old(self), Registers { f: bit_flags(old(self).regs.d, 2, old(self).regs.f), ..old(self).regs }),
    {
        let v = self.regs.d;
        self.alu_bit(v, 2);
        2
    }

    pub fn BIT_2_r_e(&mut self) -> (r: CycleType)
        ensures
            r == 2,
            *final(self) == with_regs(*old(self), Registers { f: bit_flags(old(self).regs.e, 2, old(self).regs.f), ..old(self).regs }),
    {
        let v = self.regs.e;
        self.alu_bit(v, 2);
        2
    }

    pub fn BIT_2_r_h(&mut self) -> (r: CycleType)
        ensures
            r == 2,
            *final(self) == with_regs(*old(self), Registers { f: bit_flags(old(self).regs.h, 2, old(self).regs.f), ..old(self).regs }),
    {
        let v = self.regs.h;
        self.alu_bit(v, 2);
        2
    }

    pub fn BIT_2_r_l(&mut self) -> (r: CycleType)
        ensures
            r == 2,
            *final(self) == with_regs(*old(self), Registers { f: bit_flags(old(self).regs.l, 2, old(self).regs.f), ..old(self).regs }),
    {
        let v = self.regs.l;
        self.alu_bit(v, 2);
        2
    }

    pub fn BIT_2_r_a(&mut self) -> (r: CycleType)
        ensures
            r == 2,
            *final(self) == with_regs(*old(self), Registers { f: bit_flags(old(self).regs.a, 2, old(self).regs.f), ..old(self).regs }),
    {
        let v = self.regs.a;
        self.alu_bit(v, 2);
        2
    }

    pub fn BIT_2_HLm(&mut self) -> (r: CycleType)
        ensures
            r == 3,
            *final(self) == with_regs(*old(self), Registers { f: bit_flags(at_hl(*old(self)), 2, old(self).regs.f), ..old(self).regs }),
    {
        let hl = self.regs.hl();
        let v = self.mem.read_byte(hl);
        self.alu_bit(v, 2);
        3
    }

    /// BIT 3, r: test bit 3.
    pub fn BIT_3_r_b(&mut self) -> (r: CycleType)
        ensures
            r == 2,
            *final(self) == with_regs(*old(self), Registers { f: bit_flags(old(self).regs.b, 3, old(self).regs.f), ..old(self).regs }),
    {
        let v = self.regs.b;
        self.alu_bit(v, 3);
        2
    }

    pub fn BIT_3_r_c(&mut self) -> (r: CycleType)
        ensures
            r == 2,
            *final(self) == with_regs(*old(self), Registers { f: bit_flags(old(self).regs.c, 3, old(self).regs.f), ..old(self).regs }),
    {
        let v = self.regs.c;
        self.alu_bit(v, 3);
        2
    }

    pub fn BIT_3_r_d(&mut self) -> (r: CycleType)
        ensures
            r == 2,
            *final(self) == with_regs(*old(self), Registers { f: bit_flags(old(self).regs.d, 3, old(self).regs.f), ..old(self).regs }),
    {
        let v = self.regs.d;
        self.alu_bit(v, 3);
        2
    }

    pub fn BIT_3_r_e(&mut self) -> (r: CycleType)
        ensures
            r == 2,
            *final(self) == with_regs(*old(self), Registers { f: bit_flags(old(self).regs.e, 3, old(self).regs.f), ..old(self).regs }),
    {
        let v = self.regs.e;
        self.alu_bit(v, 3);
        2
    }

    pub fn BIT_3_r_h(&mut self) -> (r: CycleType)
        ensures
            r == 2,
            *final(self) == with_regs(*old(self), Registers { f: bit_flags(old(self).regs.h, 3, old(self).regs.f), ..old(self).regs }),
    {
        let v = self.regs.h;
        self.alu_bit(v, 3);
        2
    }

    pub fn BIT_3_r_l(&mut self) -> (r: CycleType)
        ensures
            r == 2,
            *final(self) == with_regs(*old(self), Registers { f: bit_flags(old(self).regs.l, 3, old(self).regs.f), ..old(self).regs }),
    {
        let v = self.regs.l;
        self.alu_bit(v, 3);
        2
    }

    pub fn BIT_3_r_a(&mut self) -> (r: CycleType)
        ensures
            r == 2,
            *final(self) == with_regs(*old(self), Registers { f: bit_flags(old(self).regs.a, 3, old(self).regs.f), ..old(self).regs }),
    {
        let v = self.regs.a;
        self.alu_bit(v, 3);
        2
    }

    pub fn BIT_3_HLm(&mut self) -> (r: CycleType)
        ensures
            r == 3,
            *final(self) == with_regs(*old(self), Registers { f: bit_flags(at_hl(*old(self)), 3, old(self).regs.f), ..old(self).regs }),
    {
        let hl = self.regs.hl();
        let v = self.mem.read_byte(hl);
        self.alu_bit(v, 3);
        3
    }

    /// BIT 4, r: test bit 4.
    pub fn BIT_4_r_b(&mut self) -> (r: CycleType)
        ensures
            r == 2,
            *final(self) == with_regs(*old(self), Registers { f: bit_flags(old(self).regs.b, 4, old(self).regs.f), ..old(self).regs }),
    {
        let v = self.regs.b;
        self.alu_bit(v, 4);
        2
    }

    pub fn BIT_4_r_c(&mut self) -> (r: CycleType)
        ensures
            r == 2,
            *final(self) == with_regs(*old(self), Registers { f: bit_flags(old(self).regs.c, 4, old(self).regs.f), ..old(self).regs }),
    {
        let v = self.regs.c;
        self.alu_bit(v, 4);
        2
    }

    pub fn BIT_4_r_d(&mut self) -> (r: CycleType)
        ensures
            r == 2,
            *final(self) == with_regs(*old(self), Registers { f: bit_flags(old(self).regs.d, 4, old(self).regs.f), ..old(self).regs }),
    {
        let v = self.regs.d;
        self.alu_bit(v, 4);
        2
    }

    pub fn BIT_4_r_e(&mut self) -> (r: CycleType)
        ensures
            r == 2,
            *final(self) == with_regs(*old(self), Registers { f: bit_flags(old(self).regs.e, 4, old(self).regs.f), ..old(self).regs }),
    {
        let v = self.regs.e;
        self.alu_bit(v, 4);
        2
    }

    pub fn BIT_4_r_h(&mut self) -> (r: CycleType)
        ensures
            r == 2,
            *final(self) == with_regs(*old(self), Registers { f: bit_flags(old(self).regs.h, 4, old(self).regs.f), ..old(self).regs }),
    {
        let v = self.regs.h;
        self.alu_bit(v, 4);
        2
    }

    pub fn BIT_4_r_l(&mut self) -> (r: CycleType)
        ensures
            r == 2,
            *final(self) == with_regs(*old(self), Registers { f: bit_flags(old(self).regs.l, 4, old(self).regs.f), ..old(self).regs }),
    {
        let v = self.regs.l;
        self.alu_bit(v, 4);
        2
    }

    pub fn BIT_4_r_a(&mut self) -> (r: CycleType)
        ensures
            r == 2,
            *final(self) == with_regs(*old(self), Registers { f: bit_flags(old(self).regs.a, 4, old(self).regs.f), ..old(self).regs }),
    {
        let v = self.regs.a;
        self.alu_bit(v, 4);
        2
    }

    pub fn BIT_4_HLm(&mut self) -> (r: CycleType)
        ensures
            r == 3,
            *final(self) == with_regs(*old(self), Registers { f: bit_flags(at_hl(*old(self)), 4, old(self).regs.f), ..old(self).regs }),
    {
        let hl = self.regs.hl();
        let v = self.mem.read_byte(hl);
        self.alu_bit(v, 4);
        3
    }

    /// BIT 5, r: test bit 5.
    pub fn BIT_5_r_b(&mut self) -> (r: CycleType)
        ensures
            r == 2,
            *final(self) == with_regs(*old(self), Registers { f: bit_flags(old(self).regs.b, 5, old(self).regs.f), ..old(self).regs }),
    {
        let v = self.regs.b;
        self.alu_bit(v, 5);
        2
    }

    pub fn BIT_5_r_c(&mut self) -> (r: CycleType)
        ensures
            r == 2,
            *final(self) == with_regs(*old(self), Registers { f: bit_flags(old(self).regs.c, 5, old(self).regs.f), ..old(self).regs }),
    {
        let v = self.regs.c;
        self.alu_bit(v, 5);
        2
    }

    pub fn BIT_5_r_d(&mut self) -> (r: CycleType)
        ensures
            r == 2,
            *final(self) == with_regs(*old(self), Registers { f: bit_flags(old(self).regs.d, 5, old(self).regs.f), ..old(self).regs }),
    {
        let v = self.regs.d;
        self.alu_bit(v, 5);
        2
    }

    pub fn BIT_5_r_e(&mut self) -> (r: CycleType)
        ensures
            r == 2,
            *final(self) == with_regs(*old(self), Registers { f: bit_flags(old(self).regs.e, 5, old(self).regs.f), ..old(self).regs }),
    {
        let v = self.regs.e;
        self.alu_bit(v, 5);
        2
    }

    pub fn BIT_5_r_h(&mut self) -> (r: CycleType)
        ensures
            r == 2,
            *final(self) == with_regs(*old(self), Registers { f: bit_flags(old(self).regs.h, 5, old(self).regs.f), ..old(self).regs }),
    {
        let v = self.regs.h;
        self.alu_bit(v, 5);
        2
    }

    pub fn BIT_5_r_l(&mut self) -> (r: CycleType)
        ensures
            r == 2,
            *final(self) == with_regs(*old(self), Registers { f: bit_flags(old(self).regs.l, 5, old(self).regs.f), ..old(self).regs }),
    {
        let v = self.regs.l;
        self.alu_bit(v, 5);
        2
    }

    pub fn BIT_5_r_a(&mut self) -> (r: CycleType)
        ensures
            r == 2,
            *final(self) == with_regs(*old(self), Registers { f: bit_flags(old(self).regs.a, 5, old(self).regs.f), ..old(self).regs }),
    {
        let v = self.regs.a;
        self.alu_bit(v, 5);
        2
    }

    pub fn BIT_5_HLm(&mut self) -> (r: CycleType)
        ensures
            r == 3,
            *final(self) == with_regs(*old(self), Registers { f: bit_flags(at_hl(*old(self)), 5, old(self).regs.f), ..old(self).regs }),
    {
        let hl = self.regs.hl();
        let v = self.mem.read_byte(hl);
        self.alu_bit(v, 5);
        3
    }

    /// BIT 6, r: test bit 6.
    pub fn BIT_6_r_b(&mut self) -> (r: CycleType)
        ensures
            r == 2,
            *final(self) == with_regs(*old(self), Registers { f: bit_flags(old(self).regs.b, 6, old(self).regs.f), ..old(self).regs }),
    {
        let v = self.regs.b;
        self.alu_bit(v, 6);
        2
    }

    pub fn BIT_6_r_c(&mut self) -> (r: CycleType)
        ensures
            r == 2,
            *final(self) == with_regs(*old(self), Registers { f: bit_flags(old(self).regs.c, 6, old(self).regs.f), ..old(self).regs }),
    {
        let v = self.regs.c;
        self.alu_bit(v, 6);
        2
    }

    pub fn BIT_6_r_d(&mut self) -> (r: CycleType)
        ensures
            r == 2,
            *final(self) == with_regs(*old(self), Registers { f: bit_flags(old(self).regs.d, 6, old(self).regs.f), ..old(self).regs }),
    {
        let v = self.regs.d;
        self.alu_bit(v, 6);
        2
    }

    pub fn BIT_6_r_e(&mut self) -> (r: CycleType)
        ensures
            r == 2,
            *final(self) == with_regs(*old(self), Registers { f: bit_flags(old(self).regs.e, 6, old(self).regs.f), ..old(self).regs }),
    {
        let v = self.regs.e;
        self.alu_bit(v, 6);
        2
    }

    pub fn BIT_6_r_h(&mut self) -> (r: CycleType)
        ensures
            r == 2,
            *final(self) == with_regs(*old(self), Registers { f: bit_flags(old(self).regs.h, 6, old(self).regs.f), ..old(self).regs }),
    {
        let v = self.regs.h;
        self.alu_bit(v, 6);
        2
    }

    pub fn BIT_6_r_l(&mut self) -> (r: CycleType)
        ensures
            r == 2,
            *final(self) == with_regs(*old(self), Registers { f: bit_flags(old(self).regs.l, 6, old(self).regs.f), ..old(self).regs }),
    {
        let v = self.regs.l;
        self.alu_bit(v, 6);
        2
    }

    pub fn BIT_6_r_a(&mut self) -> (r: CycleType)
        ensures
            r == 2,
            *final(self) == with_regs(*old(self), Registers { f: bit_flags(old(self).regs.a, 6, old(self).regs.f), ..old(self).regs }),
    {
        let v = self.regs.a;
        self.alu_bit(v, 6);
        2
    }

    pub fn BIT_6_HLm(&mut self) -> (r: CycleType)
        ensures
            r == 3,
            *final(self) == with_regs(*old(self), Registers { f: bit_flags(at_hl(*old(self)), 6, old(self).regs.f), ..old(self).regs }),
    {
        let hl = self.regs.hl();
        let v = self.mem.read_byte(hl);
        self.alu_bit(v, 6);
        3
    }

    /// BIT 7, r: test bit 7.
    pub fn BIT_7_r_b(&mut self) -> (r: CycleType)
        ensures
            r == 2,
            *final(self) == with_regs(*old(self), Registers { f: bit_flags(old(self).regs.b, 7, old(self).regs.f), ..old(self).regs }),
    {
        let v = self.regs.b;
        self.alu_bit(v, 7);
        2
    }

    pub fn BIT_7_r_c(&mut self) -> (r: CycleType)
        ensures
            r == 2,
            *final(self) == with_regs(*old(self), Registers { f: bit_flags(old(self).regs.c, 7, old(self).regs.f), ..old(self).regs }),
    {
        let v = self.regs.c;
        self.alu_bit(v, 7);
        2
    }

    pub fn BIT_7_r_d(&mut self) -> (r: CycleType)
        ensures
            r == 2,
            *final(self) == with_regs(*old(self), Registers { f: bit_flags(old(self).regs.d, 7, old(self).regs.f), ..old(self).regs }),
    {
        let v = self.regs.d;
        self.alu_bit(v, 7);
        2
    }

    pub fn BIT_7_r_e(&mut self) -> (r: CycleType)
        ensures
            r == 2,
            *final(self) == with_regs(*old(self), Registers { f: bit_flags(old(self).regs.e, 7, old(self).regs.f), ..old(self).regs }),
    {
        let v = self.regs.e;
        self.alu_bit(v, 7);
        2
    }

    pub fn BIT_7_r_h(&mut self) -> (r: CycleType)
        ensures
            r == 2,
            *final(self) == with_regs(*old(self), Registers { f: bit_flags(old(self).regs.h, 7, old(self).regs.f), ..old(self).regs }),
    {
        let v = self.regs.h;
        self.alu_bit(v, 7);
        2
    }

    pub fn BIT_7_r_l(&mut self) -> (r: CycleType)
        ensures
            r == 2,
            *final(self) == with_regs(*old(self), Registers { f: bit_flags(old(self).regs.l, 7, old(self).regs.f), ..old(self).regs }),
    {
        let v = self.regs.l;
        self.alu_bit(v, 7);
        2
    }

    pub fn BIT_7_r_a(&mut self) -> (r: CycleType)
        ensures
            r == 2,
            *final(self) == with_regs(*old(self), Registers { f: bit_flags(old(self).regs.a, 7, old(self).regs.f), ..old(self).regs }),
    {
        let v = self.regs.a;
        self.alu_bit(v, 7);
        2
    }

    pub fn BIT_7_HLm(&mut self) -> (r: CycleType)
        ensures
            r == 3,
            *final(self) == with_regs(*old(self), Registers { f: bit_flags(at_hl(*old(self)), 7, old(self).regs.f), ..old(self).regs }),
    {
        let hl = self.regs.hl();
        let v = self.mem.read_byte(hl);
        self.alu_bit(v, 7);
        3
    }

    /// RES 0, r: clear bit 0.
    pub fn RES_0_r_b(&mut self) -> (r: CycleType)
        ensures
            r == 2,
            *final(self) == with_regs(*old(self), Registers { b: reset_bit(old(self).regs.b, 0), ..old(self).regs }),
    {
        let v = self.regs.b;
        self.regs.b = v & !(1u8 << 0);
        2
    }

    pub fn RES_0_r_c(&mut self) -> (r: CycleType)
        ensures
            r == 2,
            *final(self) == with_regs(*old(self), Registers { c: reset_bit(old(self).regs.c, 0), ..old(self).regs }),
    {
        let v = self.regs.c;
        self.regs.c = v & !(1u8 << 0);
        2
    }

    pub fn RES_0_r_d(&mut self) -> (r: CycleType)
        ensures
            r == 2,
            *final(self) == with_regs(*old(self), Registers { d: reset_bit(old(self).regs.d, 0), ..old(self).regs }),
    {
        let v = self.regs.d;
        self.regs.d = v & !(1u8 << 0);
        2
    }

    pub fn RES_0_r_e(&mut self) -> (r: CycleType)
        ensures
            r == 2,
            *final(self) == with_regs(*old(self), Registers { e: reset_bit(old(self).regs.e, 0), ..old(self).regs }),
    {
        let v = self.regs.e;
        self.regs.e = v & !(1u8 << 0);
        2
    }

    pub fn RES_0_r_h(&mut self) -> (r: CycleType)
        ensures
            r == 2,
            *final(self) == with_regs(*old(self), Registers { h: reset_bit(old(self).regs.h, 0), ..old(self).regs }),
    {
        let v = self.regs.h;
        self.regs.h = v & !(1u8 << 0);
        2
    }

    pub fn RES_0_r_l(&mut self) -> (r: CycleType)
        ensures
            r == 2,
            *final(self) == with_regs(*old(self), Registers { l: reset_bit(old(self).regs.l, 0), ..old(self).regs }),
    {
        let v = self.regs.l;
        self.regs.l = v & !(1u8 << 0);
        2
    }

    pub fn RES_0_r_a(&mut self) -> (r: CycleType)
        ensures
            r == 2,
            *final(self) == with_regs(*old(self), Registers { a: reset_bit(old(self).regs.a, 0), ..old(self).regs }),
    {
        let v = self.regs.a;
        self.regs.a = v & !(1u8 << 0);
        2
    }

    pub fn RES_0_HLm(&mut self) -> (r: CycleType)
        ensures
            r == 4,
            final(self).regs == old(self).regs,
            old(self).mem.written(old(self).regs.spec_hl(), reset_bit(at_hl(*old(self)), 0), final(self).mem),
            same_control(*old(self), *final(self)),
    {
        let hl = self.regs.hl();
        let v = self.mem.read_byte(hl);
        let r = v & !(1u8 << 0);
        self.mem.write_byte(hl, r);
        4
    }

    /// RES 1, r: clear bit 1.
    pub fn RES_1_r_b(&mut self) -> (r: CycleType)
        ensures
            r == 2,
            *final(self) == with_regs(*old(self), Registers { b: reset_bit(old(self).regs.b, 1), ..old(self).regs }),
    {
        let v = self.regs.b;
        self.regs.b = v & !(1u8 << 1);
        2
    }

    pub fn RES_1_r_c(&mut self) -> (r: CycleType)
        ensures
            r == 2,
            *final(self) == with_regs(*old(self), Registers { c: reset_bit(old(self).regs.c, 1), ..old(self).regs }),
    {
        let v = self.regs.c;
        self.regs.c = v & !(1u8 << 1);
        2
    }

    pub fn RES_1_r_d(&mut self) -> (r: CycleType)
        ensures
            r == 2,
            *final(self) == with_regs(*old(self), Registers { d: reset_bit(old(self).regs.d, 1), ..old(self).regs }),
    {
        let v = self.regs.d;
        self.regs.d = v & !(1u8 << 1);
        2
    }

    pub fn RES_1_r_e(&mut self) -> (r: CycleType)
        ensures
            r == 2,
            *final(self) == with_regs(*old(self), Registers { e: reset_bit(old(self).regs.e, 1), ..old(self).regs }),
    {
        let v = self.regs.e;
        self.regs.e = v & !(1u8 << 1);
        2
    }

    pub fn RES_1_r_h(&mut self) -> (r: CycleType)
        ensures
            r == 2,
            *final(self) == with_regs(*old(self), Registers { h: reset_bit(old(self).regs.h, 1), ..old(self).regs }),
    {
        let v = self.regs.h;
        self.regs.h = v & !(1u8 << 1);
        2
    }

    pub fn RES_1_r_l(&mut self) -> (r: CycleType)
        ensures
            r == 2,
            *final(self) == with_regs(*old(self), Registers { l: reset_bit(old(self).regs.l, 1), ..old(self).regs }),
    {
        let v = self.regs.l;
        self.regs.l = v & !(1u8 << 1);
        2
    }

    pub fn RES_1_r_a(&mut self) -> (r: CycleType)
        ensures
            r == 2,
            *final(self) == with_regs(*old(self), Registers { a: reset_bit(old(self).regs.a, 1), ..old(self).regs }),
    {
        let v = self.regs.a;
        self.regs.a = v & !(1u8 << 1);
        2
    }

    pub fn RES_1_HLm(&mut self) -> (r: CycleType)
        ensures
            r == 4,
            final(self).regs == old(self).regs,
            old(self).mem.written(old(self).regs.spec_hl(), reset_bit(at_hl(*old(self)), 1), final(self).mem),
            same_control(*old(self), *final(self)),
    {
        let hl = self.regs.hl();
        let v = self.mem.read_byte(hl);
        let r = v & !(1u8 << 1);
        self.mem.write_byte(hl, r);
        4
    }

    /// RES 2, r: clear bit 2.
    pub fn RES_2_r_b(&mut self) -> (r: CycleType)
        ensures
            r == 2,
            *final(self) == with_regs(*old(self), Registers { b: reset_bit(old(self).regs.b, 2), ..old(self).regs }),
    {
        let v = self.regs.b;
        self.regs.b = v & !(1u8 << 2);
        2
    }

    pub fn RES_2_r_c(&mut self) -> (r: CycleType)
        ensures
            r == 2,
            *final(self) == with_regs(*old(self), Registers { c: reset_bit(old(self).regs.c, 2), ..old(self).regs }),
    {
        let v = self.regs.c;
        self.regs.c = v & !(1u8 << 2);
        2
    }

    pub fn RES_2_r_d(&mut self) -> (r: CycleType)
        ensures
            r == 2,
            *final(self) == with_regs(*old(self), Registers { d: reset_bit(old(self).regs.d, 2), ..old(self).regs }),
    {
        let v = self.regs.d;
        self.regs.d = v & !(1u8 << 2);
        2
    }

    pub fn RES_2_r_e(&mut self) -> (r: CycleType)
        ensures
            r == 2,
            *final(self) == with_regs(*old(self), Registers { e: reset_bit(old(self).regs.e, 2), ..old(self).regs }),
    {
        let v = self.regs.e;
        self.regs.e = v & !(1u8 << 2);
        2
    }

    pub fn RES_2_r_h(&mut self) -> (r: CycleType)
        ensures
            r == 2,
            *final(self) == with_regs(*old(self), Registers { h: reset_bit(old(self).regs.h, 2), ..old(self).regs }),
    {
        let v = self.regs.h;
        self.regs.h = v & !(1u8 << 2);
        2
    }

    pub fn RES_2_r_l(&mut self) -> (r: CycleType)
        ensures
            r == 2,
            *final(self) == with_regs(*old(self), Registers { l: reset_bit(old(self).regs.l, 2), ..old(self).regs }),
    {
        let v = self.regs.l;
        self.regs.l = v & !(1u8 << 2);
        2
    }

    pub fn RES_2_r_a(&mut self) -> (r: CycleType)
        ensures
            r == 2,
            *final(self) == with_regs(*old(self), Registers { a: reset_bit(old(self).regs.a, 2), ..old(self).regs }),
    {
        let v = self.regs.a;
        self.regs.a = v & !(1u8 << 2);
        2
    }

    pub fn RES_2_HLm(&mut self) -> (r: CycleType)
        ensures
            r == 4,
            final(self).regs == old(self).regs,
            old(self).mem.written(old(self).regs.spec_hl(), reset_bit(at_hl(*old(self)), 2), final(self).mem),
            same_control(*old(self), *final(self)),
    {
        let hl = self.regs.hl();
        let v = self.mem.read_byte(hl);
        let r = v & !(1u8 << 2);
        self.mem.write_byte(hl, r);
        4
    }

    /// RES 3, r: clear bit 3.
    pub fn RES_3_r_b(&mut self) -> (r: CycleType)
        ensures
            r == 2,
            *final(self) == with_regs(*old(self), Registers { b: reset_bit(old(self).regs.b, 3), ..old(self).regs }),
    {
        let v = self.regs.b;
        self.regs.b = v & !(1u8 << 3);
        2
    }

    pub fn RES_3_r_c(&mut self) -> (r: CycleType)
        ensures
            r == 2,
            *final(self) == with_regs(*old(self), Registers { c: reset_bit(old(self).regs.c, 3), ..old(self).regs }),
    {
        let v = self.regs.c;
        self.regs.c = v & !(1u8 << 3);
        2
    }

    pub fn RES_3_r_d(&mut self) -> (r: CycleType)
        ensures
            r == 2,
            *final(self) == with_regs(*old(self), Registers { d: reset_bit(old(self).regs.d, 3), ..old(self).regs }),
    {
        let v = self.regs.d;
        self.regs.d = v & !(1u8 << 3);
        2
    }

    pub fn RES_3_r_e(&mut self) -> (r: CycleType)
        ensures
            r == 2,
            *final(self) == with_regs(*old(self), Registers { e: reset_bit(old(self).regs.e, 3), ..old(self).regs }),
    {
        let v = self.regs.e;
        self.regs.e = v & !(1u8 << 3);
        2
    }

    pub fn RES_3_r_h(&mut self) -> (r: CycleType)
        ensures
            r == 2,
            *final(self) == with_regs(*old(self), Registers { h: reset_bit(old(self).regs.h, 3), ..old(self).regs }),
    {
        let v = self.regs.h;
        self.regs.h = v & !(1u8 << 3);
        2
    }

    pub fn RES_3_r_l(&mut self) -> (r: CycleType)
        ensures
            r == 2,
            *final(self) == with_regs(*old(self), Registers { l: reset_bit(old(self).regs.l, 3), ..old(self).regs }),
    {
        let v = self.regs.l;
        self.regs.l = v & !(1u8 << 3);
        2
    }

    pub fn RES_3_r_a(&mut self) -> (r: CycleType)
        ensures
            r == 2,
            *final(self) == with_regs(*old(self), Registers { a: reset_bit(old(self).regs.a, 3), ..old(self).regs }),
    {
        let v = self.regs.a;
        self.regs.a = v & !(1u8 << 3);
        2
    }

    pub fn RES_3_HLm(&mut self) -> (r: CycleType)
        ensures
            r == 4,
            final(self).regs == old(self).regs,
            old(self).mem.written(old(self).regs.spec_hl(), reset_bit(at_hl(*old(self)), 3), final(self).mem),
            same_control(*old(self), *final(self)),
    {
        let hl = self.regs.hl();
        let v = self.mem.read_byte(hl);
        let r = v & !(1u8 << 3);
        self.mem.write_byte(hl, r);
        4
    }

    /// RES 4, r: clear bit 4.
    pub fn RES_4_r_b(&mut self) -> (r: CycleType)
        ensures
            r == 2,
            *final(self) == with_regs(*old(self), Registers { b: reset_bit(old(self).regs.b, 4), ..old(self).regs }),
    {
        let v = self.regs.b;
        self.regs.b = v & !(1u8 << 4);
        2
    }

    pub fn RES_4_r_c(&mut self) -> (r: CycleType)
        ensures
            r == 2,
            *final(self) == with_regs(*old(self), Registers { c: reset_bit(old(self).regs.c, 4), ..old(self).regs }),
    {
        let v = self.regs.c;
        self.regs.c = v & !(1u8 << 4);
        2
    }

    pub fn RES_4_r_d(&mut self) -> (r: CycleType)
        ensures
            r == 2,
            *final(self) == with_regs(*old(self), Registers { d: reset_bit(old(self).regs.d, 4), ..old(self).regs }),
    {
        let v = self.regs.d;
        self.regs.d = v & !(1u8 << 4);
        2
    }

    pub fn RES_4_r_e(&mut self) -> (r: CycleType)
        ensures
            r == 2,
            *final(self) == with_regs(*old(self), Registers { e: reset_bit(old(self).regs.e, 4), ..old(self).regs }),
    {
        let v = self.regs.e;
        self.regs.e = v & !(1u8 << 4);
        2
    }

    pub fn RES_4_r_h(&mut self) -> (r: CycleType)
        ensures
            r == 2,
            *final(self) == with_regs(*old(self), Registers { h: reset_bit(old(self).regs.h, 4), ..old(self).regs }),
    {
        let v = self.regs.h;
        self.regs.h = v & !(1u8 << 4);
        2
    }

    pub fn RES_4_r_l(&mut self) -> (r: CycleType)
        ensures
            r == 2,
            *final(self) == with_regs(*old(self), Registers { l: reset_bit(old(self).regs.l, 4), ..old(self).regs }),
    {
        let v = self.regs.l;
        self.regs.l = v & !(1u8 << 4);
        2
    }

    pub fn RES_4_r_a(&mut self) -> (r: CycleType)
        ensures
            r == 2,
            *final(self) == with_regs(*old(self), Registers { a: reset_bit(old(self).regs.a, 4), ..old(self).regs }),
    {
        let v = self.regs.a;
        self.regs.a = v & !(1u8 << 4);
        2
    }

    pub fn RES_4_HLm(&mut self) -> (r: CycleType)
        ensures
            r == 4,
            final(self).regs == old(self).regs,
            old(self).mem.written(old(self).regs.spec_hl(), reset_bit(at_hl(*old(self)), 4), final(self).mem),
            same_control(*old(self), *final(self)),
    {
        let hl = self.regs.hl();
        let v = self.mem.read_byte(hl);
        let r = v & !(1u8 << 4);
        self.mem.write_byte(hl, r);
        4
    }

    /// RES 5, r: clear bit 5.
    pub fn RES_5_r_b(&mut self) -> (r: CycleType)
        ensures
            r == 2,
            *final(self) == with_regs(*old(self), Registers { b: reset_bit(old(self).regs.b, 5), ..old(self).regs }),
    {
        let v = self.regs.b;
        self.regs.b = v & !(1u8 << 5);
        2
    }

    pub fn RES_5_r_c(&mut self) -> (r: CycleType)
        ensures
            r == 2,
            *final(self) == with_regs(*old(self), Registers { c: reset_bit(old(self).regs.c, 5), ..old(self).regs }),
    {
        let v = self.regs.c;
        self.regs.c = v & !(1u8 << 5);
        2
    }

    pub fn RES_5_r_d(&mut self) -> (r: CycleType)
        ensures
            r == 2,
            *final(self) == with_regs(*old(self), Registers { d: reset_bit(old(self).regs.d, 5), ..old(self).regs }),
    {
        let v = self.regs.d;
        self.regs.d = v & !(1u8 << 5);
        2
    }

    pub fn RES_5_r_e(&mut self) -> (r: CycleType)
        ensures
            r == 2,
            *final(self) == with_regs(*old(self), Registers { e: reset_bit(old(self).regs.e, 5), ..old(self).regs }),
    {
        let v = self.regs.e;
        self.regs.e = v & !(1u8 << 5);
        2
    }

    pub fn RES_5_r_h(&mut self) -> (r: CycleType)
        ensures
            r == 2,
            *final(self) == with_regs(*old(self), Registers { h: reset_bit(old(self).regs.h, 5), ..old(self).regs }),
    {
        let v = self.regs.h;
        self.regs.h = v & !(1u8 << 5);
        2
    }

    pub fn RES_5_r_l(&mut self) -> (r: CycleType)
        ensures
            r == 2,
            *final(self) == with_regs(*old(self), Registers { l: reset_bit(old(self).regs.l, 5), ..old(self).regs }),
    {
        let v = self.regs.l;
        self.regs.l = v & !(1u8 << 5);
        2
    }

    pub fn RES_5_r_a(&mut self) -> (r: CycleType)
        ensures
            r == 2,
            *final(self) == with_regs(*old(self), Registers { a: reset_bit(old(self).regs.a, 5), ..old(self).regs }),
    {
        let v = self.regs.a;
        self.regs.a = v & !(1u8 << 5);
        2
    }

    pub fn RES_5_HLm(&mut self) -> (r: CycleType)
        ensures
            r == 4,
            final(self).regs == old(self).regs,
            old(self).mem.written(old(self).regs.spec_hl(), reset_bit(at_hl(*old(self)), 5), final(self).mem),
            same_control(*old(self), *final(self)),
    {
        let hl = self.regs.hl();
        let v = self.mem.read_byte(hl);
        let r = v & !(1u8 << 5);
        self.mem.write_byte(hl, r);
        4
    }

    /// RES 6, r: clear bit 6.
    pub fn RES_6_r_b(&mut self) -> (r: CycleType)
        ensures
            r == 2,
            *final(self) == with_regs(*old(self), Registers { b: reset_bit(old(self).regs.b, 6), ..old(self).regs }),
    {
        let v = self.regs.b;
        self.regs.b = v & !(1u8 << 6);
        2
    }

    pub fn RES_6_r_c(&mut self) -> (r: CycleType)
        ensures
            r == 2,
            *final(self) == with_regs(*old(self), Registers { c: reset_bit(old(self).regs.c, 6), ..old(self).regs }),
    {
        let v = self.regs.c;
        self.regs.c = v & !(1u8 << 6);
        2
    }

    pub fn RES_6_r_d(&mut self) -> (r: CycleType)
        ensures
            r == 2,
            *final(self) == with_regs(*old(self), Registers { d: reset_bit(old(self).regs.d, 6), ..old(self).regs }),
    {
        let v = self.regs.d;
        self.regs.d = v & !(1u8 << 6);
        2
    }

    pub fn RES_6_r_e(&mut self) -> (r: CycleType)
        ensures
            r == 2,
            *final(self) == with_regs(*old(self), Registers { e: reset_bit(old(self).regs.e, 6), ..old(self).regs }),
    {
        let v = self.regs.e;
        self.regs.e = v & !(1u8 << 6);
        2
    }

    pub fn RES_6_r_h(&mut self) -> (r: CycleType)
        ensures
            r == 2,
            *final(self) == with_regs(*old(self), Registers { h: reset_bit(old(self).regs.h, 6), ..old(self).regs }),
    {
        let v = self.regs.h;
        self.regs.h = v & !(1u8 << 6);
        2
    }

    pub fn RES_6_r_l(&mut self) -> (r: CycleType)
        ensures
            r == 2,
            *final(self) == with_regs(*old(self), Registers { l: reset_bit(old(self).regs.l, 6), ..old(self).regs }),
    {
        let v = self.regs.l;
        self.regs.l = v & !(1u8 << 6);
        2
    }

    pub fn RES_6_r_a(&mut self) -> (r: CycleType)
        ensures
            r == 2,
            *final(self) == with_regs(*old(self), Registers { a: reset_bit(old(self).regs.a, 6), ..old(self).regs }),
    {
        let v = self.regs.a;
        self.regs.a = v & !(1u8 << 6);
        2
    }

    pub fn RES_6_HLm(&mut self) -> (r: CycleType)
        ensures
            r == 4,
            final(self).regs == old(self).regs,
            old(self).mem.written(old(self).regs.spec_hl(), reset_bit(at_hl(*old(self)), 6), final(self).mem),
            same_control(*old(self), *final(self)),
    {
        let hl = self.regs.hl();
        let v = self.mem.read_byte(hl);
        let r = v & !(1u8 << 6);
        self.mem.write_byte(hl, r);
        4
    }

    /// RES 7, r: clear bit 7.
    pub fn RES_7_r_b(&mut self) -> (r: CycleType)
        ensures
            r == 2,
            *final(self) == with_regs(*old(self), Registers { b: reset_bit(old(self).regs.b, 7), ..old(self).regs }),
    {
        let v = self.regs.b;
        self.regs.b = v & !(1u8 << 7);
        2
    }

    pub fn RES_7_r_c(&mut self) -> (r: CycleType)
        ensures
            r == 2,
            *final(self) == with_regs(*old(self), Registers { c: reset_bit(old(self).regs.c, 7), ..old(self).regs }),
    {
        let v = self.regs.c;
        self.regs.c = v & !(1u8 << 7);
        2
    }

    pub fn RES_7_r_d(&mut self) -> (r: CycleType)
        ensures
            r == 2,
            *final(self) == with_regs(*old(self), Registers { d: reset_bit(old(self).regs.d, 7), ..old(self).regs }),
    {
        let v = self.regs.d;
        self.regs.d = v & !(1u8 << 7);
        2
    }

    pub fn RES_7_r_e(&mut self) -> (r: CycleType)
        ensures
            r == 2,
            *final(self) == with_regs(*old(self), Registers { e: reset_bit(old(self).regs.e, 7), ..old(self).regs }),
    {
        let v = self.regs.e;
        self.regs.e = v & !(1u8 << 7);
        2
    }

    pub fn RES_7_r_h(&mut self) -> (r: CycleType)
        ensures
            r == 2,
            *final(self) == with_regs(*old(self), Registers { h: reset_bit(old(self).regs.h, 7), ..old(self).regs }),
    {
        let v = self.regs.h;
        self.regs.h = v & !(1u8 << 7);
        2
    }

    pub fn RES_7_r_l(&mut self) -> (r: CycleType)
        ensures
            r == 2,
            *final(self) == with_regs(*old(self), Registers { l: reset_bit(old(self).regs.l, 7), ..old(self).regs }),
    {
        let v = self.regs.l;
        self.regs.l = v & !(1u8 << 7);
        2
    }

    pub fn RES_7_r_a(&mut self) -> (r: CycleType)
        ensures
            r == 2,
            *final(self) == with_regs(*old(self), Registers { a: reset_bit(old(self).regs.a, 7), ..old(self).regs }),
    {
        let v = self.regs.a;
        self.regs.a = v & !(1u8 << 7);
        2
    }

    pub fn RES_7_HLm(&mut self) -> (r: CycleType)
        ensures
            r == 4,
            final(self).regs == old(self).regs,
            old(self).mem.written(old(self).regs.spec_hl(), reset_bit(at_hl(*old(self)), 7), final(self).mem),
            same_control(*old(self), *final(self)),
    {
        let hl = self.regs.hl();
        let v = self.mem.read_byte(hl);
        let r = v & !(1u8 << 7);
        self.mem.write_byte(hl, r);
        4
    }

    /// SET 0, r: set bit 0.
    pub fn SET_0_r_b(&mut self) -> (r: CycleType)
        ensures
            r == 2,
            *final(self) == with_regs(*old(self), Registers { b: set_bit(old(self).regs.b, 0), ..old(self).regs }),
    {
        let v = self.regs.b;
        self.regs.b = v | (1u8 << 0);
        2
    }

    pub fn SET_0_r_c(&mut self) -> (r: CycleType)
        ensures
            r == 2,
            *final(self) == with_regs(*old(self), Registers { c: set_bit(old(self).regs.c, 0), ..old(self).regs }),
    {
        let v = self.regs.c;
        self.regs.c = v | (1u8 << 0);
        2
    }

    pub fn SET_0_r_d(&mut self) -> (r: CycleType)
        ensures
            r == 2,
            *final(self) == with_regs(*old(self), Registers { d: set_bit(old(self).regs.d, 0), ..old(self).regs }),
    {
        let v = self.regs.d;
        self.regs.d = v | (1u8 << 0);
        2
    }

    pub fn SET_0_r_e(&mut self) -> (r: CycleType)
        ensures
            r == 2,
            *final(self) == with_regs(*old(self), Registers { e: set_bit(old(self).regs.e, 0), ..old(self).regs }),
    {
        let v = self.regs.e;
        self.regs.e = v | (1u8 << 0);
        2
    }

    pub fn SET_0_r_h(&mut self) -> (r: CycleType)
        ensures
            r == 2,
            *final(self) == with_regs(*old(self), Registers { h: set_bit(old(self).regs.h, 0), ..old(self).regs }),
    {
        let v = self.regs.h;
        self.regs.h = v | (1u8 << 0);
        2
    }

    pub fn SET_0_r_l(&mut self) -> (r: CycleType)
        ensures
            r == 2,
            *final(self) == with_regs(*old(self), Registers { l: set_bit(old(self).regs.l, 0), ..old(self).regs }),
    {
        let v = self.regs.l;
        self.regs.l = v | (1u8 << 0);
        2
    }

    pub fn SET_0_r_a(&mut self) -> (r: CycleType)
        ensures
            r == 2,
            *final(self) == with_regs(*old(self), Registers { a: set_bit(old(self).regs.a, 0), ..old(self).regs }),
    {
        let v = self.regs.a;
        self.regs.a = v | (1u8 << 0);
        2
    }

    pub fn SET_0_HLm(&mut self) -> (r: CycleType)
        ensures
            r == 4,
            final(self).regs == old(self).regs,
            old(self).mem.written(old(self).regs.spec_hl(), set_bit(at_hl(*old(self)), 0), final(self).mem),
            same_control(*old(self), *final(self)),
    {
        let hl = self.regs.hl();
        let v = self.mem.read_byte(hl);
        let r = v | (1u8 << 0);
        self.mem.write_byte(hl, r);
        4
    }

    /// SET 1, r: set bit 1.
    pub fn SET_1_r_b(&mut self) -> (r: CycleType)
        ensures
            r == 2,
            *final(self) == with_regs(*old(self), Registers { b: set_bit(old(self).regs.b, 1), ..old(self).regs }),
    {
        let v = self.regs.b;
        self.regs.b = v | (1u8 << 1);
        2
    }

    pub fn SET_1_r_c(&mut self) -> (r: CycleType)
        ensures
            r == 2,
            *final(self) == with_regs(*old(self), Registers { c: set_bit(old(self).regs.c, 1), ..old(self).regs }),
    {
        let v = self.regs.c;
        self.regs.c = v | (1u8 << 1);
        2
    }

    pub fn SET_1_r_d(&mut self) -> (r: CycleType)
        ensures
            r == 2,
            *final(self) == with_regs(*old(self), Registers { d: set_bit(old(self).regs.d, 1), ..old(self).regs }),
    {
        let v = self.regs.d;
        self.regs.d = v | (1u8 << 1);
        2
    }

    pub fn SET_1_r_e(&mut self) -> (r: CycleType)
        ensures
            r == 2,
            *final(self) == with_regs(*old(self), Registers { e: set_bit(old(self).regs.e, 1), ..old(self).regs }),
    {
        let v = self.regs.e;
        self.regs.e = v | (1u8 << 1);
        2
    }

    pub fn SET_1_r_h(&mut self) -> (r: CycleType)
        ensures
            r == 2,
            *final(self) == with_regs(*old(self), Registers { h: set_bit(old(self).regs.h, 1), ..old(self).regs }),
    {
        let v = self.regs.h;
        self.regs.h = v | (1u8 << 1);
        2
    }

    pub fn SET_1_r_l(&mut self) -> (r: CycleType)
        ensures
            r == 2,
            *final(self) == with_regs(*old(self), Registers { l: set_bit(old(self).regs.l, 1), ..old(self).regs }),
    {
        let v = self.regs.l;
        self.regs.l = v | (1u8 << 1);
        2
    }

    pub fn SET_1_r_a(&mut self) -> (r: CycleType)
        ensures
            r == 2,
            *final(self) == with_regs(*old(self), Registers { a: set_bit(old(self).regs.a, 1), ..old(self).regs }),
    {
        let v = self.regs.a;
        self.regs.a = v | (1u8 << 1);
        2
    }

    pub fn SET_1_HLm(&mut self) -> (r: CycleType)
        ensures
            r == 4,
            final(self).regs == old(self).regs,
            old(self).mem.written(old(self).regs.spec_hl(), set_bit(at_hl(*old(self)), 1), final(self).mem),
            same_control(*old(self), *final(self)),
    {
        let hl = self.regs.hl();
        let v = self.mem.read_byte(hl);
        let r = v | (1u8 << 1);
        self.mem.write_byte(hl, r);
        4
    }

    /// SET 2, r: set bit 2.
    pub fn SET_2_r_b(&mut self) -> (r: CycleType)
        ensures
            r == 2,
            *final(self) == with_regs(*old(self), Registers { b: set_bit(old(self).regs.b, 2), ..old(self).regs }),
    {
        let v = self.regs.b;
        self.regs.b = v | (1u8 << 2);
        2
    }

    pub fn SET_2_r_c(&mut self) -> (r: CycleType)
        ensures
            r == 2,
            *final(self) == with_regs(*old(self), Registers { c: set_bit(old(self).regs.c, 2), ..old(self).regs }),
    {
        let v = self.regs.c;
        self.regs.c = v | (1u8 << 2);
        2
    }

    pub fn SET_2_r_d(&mut self) -> (r: CycleType)
        ensures
            r == 2,
            *final(self) == with_regs(*old(self), Registers { d: set_bit(old(self).regs.d, 2), ..old(self).regs }),
    {
        let v = self.regs.d;
        self.regs.d = v | (1u8 << 2);
        2
    }

    pub fn SET_2_r_e(&mut self) -> (r: CycleType)
        ensures
            r == 2,
            *final(self) == with_regs(*old(self), Registers { e: set_bit(old(self).regs.e, 2), ..old(self).regs }),
    {
        let v = self.regs.e;
        self.regs.e = v | (1u8 << 2);
        2
    }

    pub fn SET_2_r_h(&mut self) -> (r: CycleType)
        ensures
            r == 2,
            *final(self) == with_regs(*old(self), Registers { h: set_bit(old(self).regs.h, 2), ..old(self).regs }),
    {
        let v = self.regs.h;
        self.regs.h = v | (1u8 << 2);
        2
    }

    pub fn SET_2_r_l(&mut self) -> (r: CycleType)
        ensures
            r == 2,
            *final(self) == with_regs(*old(self), Registers { l: set_bit(old(self).regs.l, 2), ..old(self).regs }),
    {
        let v = self.regs.l;
        self.regs.l = v | (1u8 << 2);
        2
    }

    pub fn SET_2_r_a(&mut self) -> (r: CycleType)
        ensures
            r == 2,
            *final(self) == with_regs(*old(self), Registers { a: set_bit(old(self).regs.a, 2), ..old(self).regs }),
    {
        let v = self.regs.a;
        self.regs.a = v | (1u8 << 2);
        2
    }

    pub fn SET_2_HLm(&mut self) -> (r: CycleType)
        ensures
            r == 4,
            final(self).regs == old(self).regs,
            old(self).mem.written(old(self).regs.spec_hl(), set_bit(at_hl(*old(self)), 2), final(self).mem),
            same_control(*old(self), *final(self)),
    {
        let hl = self.regs.hl();
        let v = self.mem.read_byte(hl);
        let r = v | (1u8 << 2);
        self.mem.write_byte(hl, r);
        4
    }

    /// SET 3, r: set bit 3.
    pub fn SET_3_r_b(&mut self) -> (r: CycleType)
        ensures
            r == 2,
            *final(self) == with_regs(*old(self), Registers { b: set_bit(old(self).regs.b, 3), ..old(self).regs }),
    {
        let v = self.regs.b;
        self.regs.b = v | (1u8 << 3);
        2
    }

    pub fn SET_3_r_c(&mut self) -> (r: CycleType)
        ensures
            r == 2,
            *final(self) == with_regs(*old(self), Registers { c: set_bit(old(self).regs.c, 3), ..old(self).regs }),
    {
        let v = self.regs.c;
        self.regs.c = v | (1u8 << 3);
        2
    }

    pub fn SET_3_r_d(&mut self) -> (r: CycleType)
        ensures
            r == 2,
            *final(self) == with_regs(*old(self), Registers { d: set_bit(old(self).regs.d, 3), ..old(self).regs }),
    {
        let v = self.regs.d;
        self.regs.d = v | (1u8 << 3);
        2
    }

    pub fn SET_3_r_e(&mut self) -> (r: CycleType)
        ensures
            r == 2,
            *final(self) == with_regs(*old(self), Registers { e: set_bit(old(self).regs.e, 3), ..old(self).regs }),
    {
        let v = self.regs.e;
        self.regs.e = v | (1u8 << 3);
        2
    }

    pub fn SET_3_r_h(&mut self) -> (r: CycleType)
        ensures
            r == 2,
            *final(self) == with_regs(*old(self), Registers { h: set_bit(old(self).regs.h, 3), ..old(self).regs }),
    {
        let v = self.regs.h;
        self.regs.h = v | (1u8 << 3);
        2
    }

    pub fn SET_3_r_l(&mut self) -> (r: CycleType)
        ensures
            r == 2,
            *final(self) == with_regs(*old(self), Registers { l: set_bit(old(self).regs.l, 3), ..old(self).regs }),
    {
        let v = self.regs.l;
        self.regs.l = v | (1u8 << 3);
        2
    }

    pub fn SET_3_r_a(&mut self) -> (r: CycleType)
        ensures
            r == 2,
            *final(self) == with_regs(*old(self), Registers { a: set_bit(old(self).regs.a, 3), ..old(self).regs }),
    {
        let v = self.regs.a;
        self.regs.a = v | (1u8 << 3);
        2
    }

    pub fn SET_3_HLm(&mut self) -> (r: CycleType)
        ensures
            r == 4,
            final(self).regs == old(self).regs,
            old(self).mem.written(old(self).regs.spec_hl(), set_bit(at_hl(*old(self)), 3), final(self).mem),
            same_control(*old(self), *final(self)),
    {
        let hl = self.regs.hl();
        let v = self.mem.read_byte(hl);
        let r = v | (1u8 << 3);
        self.mem.write_byte(hl, r);
        4
    }

    /// SET 4, r: set bit 4.
    pub fn SET_4_r_b(&mut self) -> (r: CycleType)
        ensures
            r == 2,
            *final(self) == with_regs(*old(self), Registers { b: set_bit(old(self).regs.b, 4), ..old(self).regs }),
    {
        let v = self.regs.b;
        self.regs.b = v | (1u8 << 4);
        2
    }

    pub fn SET_4_r_c(&mut self) -> (r: CycleType)
        ensures
            r == 2,
            *final(self) == with_regs(*old(self), Registers { c: set_bit(old(self).regs.c, 4), ..old(self).regs }),
    {
        let v = self.regs.c;
        self.regs.c = v | (1u8 << 4);
        2
    }

    pub fn SET_4_r_d(&mut self) -> (r: CycleType)
        ensures
            r == 2,
            *final(self) == with_regs(*old(self), Registers { d: set_bit(old(self).regs.d, 4), ..old(self).regs }),
    {
        let v = self.regs.d;
        self.regs.d = v | (1u8 << 4);
        2
    }

    pub fn SET_4_r_e(&mut self) -> (r: CycleType)
        ensures
            r == 2,
            *final(self) == with_regs(*old(self), Registers { e: set_bit(old(self).regs.e, 4), ..old(self).regs }),
    {
        let v = self.regs.e;
        self.regs.e = v | (1u8 << 4);
        2
    }

    pub fn SET_4_r_h(&mut self) -> (r: CycleType)
        ensures
            r == 2,
            *final(self) == with_regs(*old(self), Registers { h: set_bit(old(self).regs.h, 4), ..old(self).regs }),
    {
        let v = self.regs.h;
        self.regs.h = v | (1u8 << 4);
        2
    }

    pub fn SET_4_r_l(&mut self) -> (r: CycleType)
        ensures
            r == 2,
            *final(self) == with_regs(*old(self), Registers { l: set_bit(old(self).regs.l, 4), ..old(self).regs }),
    {
        let v = self.regs.l;
        self.regs.l = v | (1u8 << 4);
        2
    }

    pub fn SET_4_r_a(&mut self) -> (r: CycleType)
        ensures
            r == 2,
            *final(self) == with_regs(*old(self), Registers { a: set_bit(old(self).regs.a, 4), ..old(self).regs }),
    {
        let v = self.regs.a;
        self.regs.a = v | (1u8 << 4);
        2
    }

    pub fn SET_4_HLm(&mut self) -> (r: CycleType)
        ensures
            r == 4,
            final(self).regs == old(self).regs,
            old(self).mem.written(old(self).regs.spec_hl(), set_bit(at_hl(*old(self)), 4), final(self).mem),
            same_control(*old(self), *final(self)),
    {
        let hl = self.regs.hl();
        let v = self.mem.read_byte(hl);
        let r = v | (1u8 << 4);
        self.mem.write_byte(hl, r);
        4
    }

    /// SET 5, r: set bit 5.
    pub fn SET_5_r_b(&mut self) -> (r: CycleType)
        ensures
            r == 2,
            *final(self) == with_regs(*old(self), Registers { b: set_bit(old(self).regs.b, 5), ..old(self).regs }),
    {
        let v = self.regs.b;
        self.regs.b = v | (1u8 << 5);
        2
    }

    pub fn SET_5_r_c(&mut self) -> (r: CycleType)
        ensures
            r == 2,
            *final(self) == with_regs(*old(self), Registers { c: set_bit(old(self).regs.c, 5), ..old(self).regs }),
    {
        let v = self.regs.c;
        self.regs.c = v | (1u8 << 5);
        2
    }

    pub fn SET_5_r_d(&mut self) -> (r: CycleType)
        ensures
            r == 2,
            *final(self) == with_regs(*old(self), Registers { d: set_bit(old(self).regs.d, 5), ..old(self).regs }),
    {
        let v = self.regs.d;
        self.regs.d = v | (1u8 << 5);
        2
    }

    pub fn SET_5_r_e(&mut self) -> (r: CycleType)
        ensures
            r == 2,
            *final(self) == with_regs(*old(self), Registers { e: set_bit(old(self).regs.e, 5), ..old(self).regs }),
    {
        let v = self.regs.e;
        self.regs.e = v | (1u8 << 5);
        2
    }

    pub fn SET_5_r_h(&mut self) -> (r: CycleType)
        ensures
            r == 2,
            *final(self) == with_regs(*old(self), Registers { h: set_bit(old(self).regs.h, 5), ..old(self).regs }),
    {
        let v = self.regs.h;
        self.regs.h = v | (1u8 << 5);
        2
    }

    pub fn SET_5_r_l(&mut self) -> (r: CycleType)
        ensures
            r == 2,
            *final(self) == with_regs(*old(self), Registers { l: set_bit(old(self).regs.l, 5), ..old(self).regs }),
    {
        let v = self.regs.l;
        self.regs.l = v | (1u8 << 5);
        2
    }

    pub fn SET_5_r_a(&mut self) -> (r: CycleType)
        ensures
            r == 2,
            *final(self) == with_regs(*old(self), Registers { a: set_bit(old(self).regs.a, 5), ..old(self).regs }),
    {
        let v = self.regs.a;
        self.regs.a = v | (1u8 << 5);
        2
    }

    pub fn SET_5_HLm(&mut self) -> (r: CycleType)
        ensures
            r == 4,
            final(self).regs == old(self).regs,
            old(self).mem.written(old(self).regs.spec_hl(), set_bit(at_hl(*old(self)), 5), final(self).mem),
            same_control(*old(self), *final(self)),
    {
        let hl = self.regs.hl();
        let v = self.mem.read_byte(hl);
        let r = v | (1u8 << 5);
        self.mem.write_byte(hl, r);
        4
    }

    /// SET 6, r: set bit 6.
    pub fn SET_6_r_b(&mut self) -> (r: CycleType)
        ensures
            r == 2,
            *final(self) == with_regs(*old(self), Registers { b: set_bit(old(self).regs.b, 6), ..old(self).regs }),
    {
        let v = self.regs.b;
        self.regs.b = v | (1u8 << 6);
        2
    }

    pub fn SET_6_r_c(&mut self) -> (r: CycleType)
        ensures
            r == 2,
            *final(self) == with_regs(*old(self), Registers { c: set_bit(old(self).regs.c, 6), ..old(self).regs }),
    {
        let v = self.regs.c;
        self.regs.c = v | (1u8 << 6);
        2
    }

    pub fn SET_6_r_d(&mut self) -> (r: CycleType)
        ensures
            r == 2,
            *final(self) == with_regs(*old(self), Registers { d: set_bit(old(self).regs.d, 6), ..old(self).regs }),
    {
        let v = self.regs.d;
        self.regs.d = v | (1u8 << 6);
        2
    }

    pub fn SET_6_r_e(&mut self) -> (r: CycleType)
        ensures
            r == 2,
            *final(self) == with_regs(*old(self), Registers { e: set_bit(old(self).regs.e, 6), ..old(self).regs }),
    {
        let v = self.regs.e;
        self.regs.e = v | (1u8 << 6);
        2
    }

    pub fn SET_6_r_h(&mut self) -> (r: CycleType)
        ensures
            r == 2,
            *final(self) == with_regs(*old(self), Registers { h: set_bit(old(self).regs.h, 6), ..old(self).regs }),
    {
        let v = self.regs.h;
        self.regs.h = v | (1u8 << 6);
        2
    }

    pub fn SET_6_r_l(&mut self) -> (r: CycleType)
        ensures
            r == 2,
            *final(self) == with_regs(*old(self), Registers { l: set_bit(old(self).regs.l, 6), ..old(self).regs }),
    {
        let v = self.regs.l;
        self.regs.l = v | (1u8 << 6);
        2
    }

    pub fn SET_6_r_a(&mut self) -> (r: CycleType)
        ensures
            r == 2,
            *final(self) == with_regs(*old(self), Registers { a: set_bit(old(self).regs.a, 6), ..old(self).regs }),
    {
        let v = self.regs.a;
        self.regs.a = v | (1u8 << 6);
        2
    }

    pub fn SET_6_HLm(&mut self) -> (r: CycleType)
        ensures
            r == 4,
            final(self).regs == old(self).regs,
            old(self).mem.written(old(self).regs.spec_hl(), set_bit(at_hl(*old(self)), 6), final(self).mem),
            same_control(*old(self), *final(self)),
    {
        let hl = self.regs.hl();
        let v = self.mem.read_byte(hl);
        let r = v | (1u8 << 6);
        self.mem.write_byte(hl, r);
        4
    }

    /// SET 7, r: set bit 7.
    pub fn SET_7_r_b(&mut self) -> (r: CycleType)
        ensures
            r == 2,
            *final(self) == with_regs(*old(self), Registers { b: set_bit(old(self).regs.b, 7), ..old(self).regs }),
    {
        let v = self.regs.b;
        self.regs.b = v | (1u8 << 7);
        2
    }

    pub fn SET_7_r_c(&mut self) -> (r: CycleType)
        ensures
            r == 2,
            *final(self) == with_regs(*old(self), Registers { c: set_bit(old(self).regs.c, 7), ..old(self).regs }),
    {
        let v = self.regs.c;
        self.regs.c = v | (1u8 << 7);
        2
    }

    pub fn SET_7_r_d(&mut self) -> (r: CycleType)
        ensures
            r == 2,
            *final(self) == with_regs(*old(self), Registers { d: set_bit(old(self).regs.d, 7), ..old(self).regs }),
    {
        let v = self.regs.d;
        self.regs.d = v | (1u8 << 7);
        2
    }

    pub fn SET_7_r_e(&mut self) -> (r: CycleType)
        ensures
            r == 2,
            *final(self) == with_regs(*old(self), Registers { e: set_bit(old(self).regs.e, 7), ..old(self).regs }),
    {
        let v = self.regs.e;
        self.regs.e = v | (1u8 << 7);
        2
    }

    pub fn SET_7_r_h(&mut self) -> (r: CycleType)
        ensures
            r == 2,
            *final(self) == with_regs(*old(self), Registers { h: set_bit(old(self).regs.h, 7), ..old(self).regs }),
    {
        let v = self.regs.h;
        self.regs.h = v | (1u8 << 7);
        2
    }

    pub fn SET_7_r_l(&mut self) -> (r: CycleType)
        ensures
            r == 2,
            *final(self) == with_regs(*old(self), Registers { l: set_bit(old(self).regs.l, 7), ..old(self).regs }),
    {
        let v = self.regs.l;
        self.regs.l = v | (1u8 << 7);
        2
    }

    pub fn SET_7_r_a(&mut self) -> (r: CycleType)
        ensures
            r == 2,
            *final(self) == with_regs(*old(self), Registers { a: set_bit(old(self).regs.a, 7), ..old(self).regs }),
    {
        let v = self.regs.a;
        self.regs.a = v | (1u8 << 7);
        2
    }

    pub fn SET_7_HLm(&mut self) -> (r: CycleType)
        ensures
            r == 4,
            final(self).regs == old(self).regs,
            old(self).mem.written(old(self).regs.spec_hl(), set_bit(at_hl(*old(self)), 7), final(self).mem),
            same_control(*old(self), *final(self)),
    {
        let hl = self.regs.hl();
        let v = self.mem.read_byte(hl);
        let r = v | (1u8 << 7);
        self.mem.write_byte(hl, r);
        4
    }
}

} // verus!
