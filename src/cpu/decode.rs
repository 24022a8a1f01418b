use vstd::prelude::*;
use super::{
    add2, add_hl_regs, add_regs, add_sp_flags, and_regs, at_hl, bit_flags, cp_regs, daa_regs, dec16,
    dec_flags, dec_value, imm16, imm8, inc16, inc_flags, inc_value, offset16, or_regs, out_left,
    out_right, pc1, pc2, pushed, reset_bit, rl_value, rlc_value, rr_value, rrc_value, same_control,
    set_bit, shift_flags, sla_value, sra_value, srl_value, sub2, sub_regs, swap_value, with_regs,
    xor_regs, Cpu, CycleType,
};
use crate::memory::{word_value, word_written, Memory};
use crate::mmu::MemoryManagementUnit;
use crate::registers::{flags_of, has_flag, high, low, Registers, C_FLAG, Z_FLAG};

verus! {

/// What the prefixed opcode `opcode` does: `post` is the state it leaves
/// from `pre`, and `r` the machine cycles it takes.
pub open spec fn cb_effect<M: Memory + MemoryManagementUnit>(
    opcode: u8,
    pre: Cpu<M>,
    post: Cpu<M>,
    r: CycleType,
) -> bool {
    match opcode {
        0x00 => (r == 2) && (post == with_regs(pre, Registers { b: rlc_value(pre.regs.b), f: shift_flags(rlc_value(pre.regs.b), out_left(pre.regs.b)), ..pre.regs })),
        0x01 => (r == 2) && (post == with_regs(pre, Registers { c: rlc_value(pre.regs.c), f: shift_flags(rlc_value(pre.regs.c), out_left(pre.regs.c)), ..pre.regs })),
        0x02 => (r == 2) && (post == with_regs(pre, Registers { d: rlc_value(pre.regs.d), f: shift_flags(rlc_value(pre.regs.d), out_left(pre.regs.d)), ..pre.regs })),
        0x03 => (r == 2) && (post == with_regs(pre, Registers { e: rlc_value(pre.regs.e), f: shift_flags(rlc_value(pre.regs.e), out_left(pre.regs.e)), ..pre.regs })),
        0x04 => (r == 2) && (post == with_regs(pre, Registers { h: rlc_value(pre.regs.h), f: shift_flags(rlc_value(pre.regs.h), out_left(pre.regs.h)), ..pre.regs })),
        0x05 => (r == 2) && (post == with_regs(pre, Registers { l: rlc_value(pre.regs.l), f: shift_flags(rlc_value(pre.regs.l), out_left(pre.regs.l)), ..pre.regs })),
        0x06 => (r == 4) && (post.regs == (Registers { f: shift_flags(rlc_value(at_hl(pre)), out_left(at_hl(pre))), ..pre.regs })) && (pre.mem.written(pre.regs.spec_hl(), rlc_value(at_hl(pre)), post.mem)) && (same_control(pre, post)),
        0x07 => (r == 2) && (post == with_regs(pre, Registers { a: rlc_value(pre.regs.a), f: shift_flags(rlc_value(pre.regs.a), out_left(pre.regs.a)), ..pre.regs })),
        0x08 => (r == 2) && (post == with_regs(pre, Registers { b: rrc_value(pre.regs.b), f: shift_flags(rrc_value(pre.regs.b), out_right(pre.regs.b)), ..pre.regs })),
        0x09 => (r == 2) && (post == with_regs(pre, Registers { c: rrc_value(pre.regs.c), f: shift_flags(rrc_value(pre.regs.c), out_right(pre.regs.c)), ..pre.regs })),
        0x0A => (r == 2) && (post == with_regs(pre, Registers { d: rrc_value(pre.regs.d), f: shift_flags(rrc_value(pre.regs.d), out_right(pre.regs.d)), ..pre.regs })),
        0x0B => (r == 2) && (post == with_regs(pre, Registers { e: rrc_value(pre.regs.e), f: shift_flags(rrc_value(pre.regs.e), out_right(pre.regs.e)), ..pre.regs })),
        0x0C => (r == 2) && (post == with_regs(pre, Registers { h: rrc_value(pre.regs.h), f: shift_flags(rrc_value(pre.regs.h), out_right(pre.regs.h)), ..pre.regs })),
        0x0D => (r == 2) && (post == with_regs(pre, Registers { l: rrc_value(pre.regs.l), f: shift_flags(rrc_value(pre.regs.l), out_right(pre.regs.l)), ..pre.regs })),
        0x0E => (r == 4) && (post.regs == (Registers { f: shift_flags(rrc_value(at_hl(pre)), out_right(at_hl(pre))), ..pre.regs })) && (pre.mem.written(pre.regs.spec_hl(), rrc_value(at_hl(pre)), post.mem)) && (same_control(pre, post)),
        0x0F => (r == 2) && (post == with_regs(pre, Registers { a: rrc_value(pre.regs.a), f: shift_flags(rrc_value(pre.regs.a), out_right(pre.regs.a)), ..pre.regs })),
        0x10 => (r == 2) && (post == with_regs(pre, Registers { b: rl_value(pre.regs.b, pre.regs.f), f: shift_flags(rl_value(pre.regs.b, pre.regs.f), out_left(pre.regs.b)), ..pre.regs })),
        0x11 => (r == 2) && (post == with_regs(pre, Registers { c: rl_value(pre.regs.c, pre.regs.f), f: shift_flags(rl_value(pre.regs.c, pre.regs.f), out_left(pre.regs.c)), ..pre.regs })),
        0x12 => (r == 2) && (post == with_regs(pre, Registers { d: rl_value(pre.regs.d, pre.regs.f), f: shift_flags(rl_value(pre.regs.d, pre.regs.f), out_left(pre.regs.d)), ..pre.regs })),
        0x13 => (r == 2) && (post == with_regs(pre, Registers { e: rl_value(pre.regs.e, pre.regs.f), f: shift_flags(rl_value(pre.regs.e, pre.regs.f), out_left(pre.regs.e)), ..pre.regs })),
        0x14 => (r == 2) && (post == with_regs(pre, Registers { h: rl_value(pre.regs.h, pre.regs.f), f: shift_flags(rl_value(pre.regs.h, pre.regs.f), out_left(pre.regs.h)), ..pre.regs })),
        0x15 => (r == 2) && (post == with_regs(pre, Registers { l: rl_value(pre.regs.l, pre.regs.f), f: shift_flags(rl_value(pre.regs.l, pre.regs.f), out_left(pre.regs.l)), ..pre.regs })),
        0x16 => (r == 4) && (post.regs == (Registers { f: shift_flags(rl_value(at_hl(pre), pre.regs.f), out_left(at_hl(pre))), ..pre.regs })) && (pre.mem.written(pre.regs.spec_hl(), rl_value(at_hl(pre), pre.regs.f), post.mem)) && (same_control(pre, post)),
        0x17 => (r == 2) && (post == with_regs(pre, Registers { a: rl_value(pre.regs.a, pre.regs.f), f: shift_flags(rl_value(pre.regs.a, pre.regs.f), out_left(pre.regs.a)), ..pre.regs })),
        0x18 => (r == 2) && (post == with_regs(pre, Registers { b: rr_value(pre.regs.b, pre.regs.f), f: shift_flags(rr_value(pre.regs.b, pre.regs.f), out_right(pre.regs.b)), ..pre.regs })),
        0x19 => (r == 2) && (post == with_regs(pre, Registers { c: rr_value(pre.regs.c, pre.regs.f), f: shift_flags(rr_value(pre.regs.c, pre.regs.f), out_right(pre.regs.c)), ..pre.regs })),
        0x1A => (r == 2) && (post == with_regs(pre, Registers { d: rr_value(pre.regs.d, pre.regs.f), f: shift_flags(rr_value(pre.regs.d, pre.regs.f), out_right(pre.regs.d)), ..pre.regs })),
        0x1B => (r == 2) && (post == with_regs(pre, Registers { e: rr_value(pre.regs.e, pre.regs.f), f: shift_flags(rr_value(pre.regs.e, pre.regs.f), out_right(pre.regs.e)), ..pre.regs })),
        0x1C => (r == 2) && (post == with_regs(pre, Registers { h: rr_value(pre.regs.h, pre.regs.f), f: shift_flags(rr_value(pre.regs.h, pre.regs.f), out_right(pre.regs.h)), ..pre.regs })),
        0x1D => (r == 2) && (post == with_regs(pre, Registers { l: rr_value(pre.regs.l, pre.regs.f), f: shift_flags(rr_value(pre.regs.l, pre.regs.f), out_right(pre.regs.l)), ..pre.regs })),
        0x1E => (r == 4) && (post.regs == (Registers { f: shift_flags(rr_value(at_hl(pre), pre.regs.f), out_right(at_hl(pre))), ..pre.regs })) && (pre.mem.written(pre.regs.spec_hl(), rr_value(at_hl(pre), pre.regs.f), post.mem)) && (same_control(pre, post)),
        0x1F => (r == 2) && (post == with_regs(pre, Registers { a: rr_value(pre.regs.a, pre.regs.f), f: shift_flags(rr_value(pre.regs.a, pre.regs.f), out_right(pre.regs.a)), ..pre.regs })),
        0x20 => (r == 2) && (post == with_regs(pre, Registers { b: sla_value(pre.regs.b), f: shift_flags(sla_value(pre.regs.b), out_left(pre.regs.b)), ..pre.regs })),
        0x21 => (r == 2) && (post == with_regs(pre, Registers { c: sla_value(pre.regs.c), f: shift_flags(sla_value(pre.regs.c), out_left(pre.regs.c)), ..pre.regs })),
        0x22 => (r == 2) && (post == with_regs(pre, Registers { d: sla_value(pre.regs.d), f: shift_flags(sla_value(pre.regs.d), out_left(pre.regs.d)), ..pre.regs })),
        0x23 => (r == 2) && (post == with_regs(pre, Registers { e: sla_value(pre.regs.e), f: shift_flags(sla_value(pre.regs.e), out_left(pre.regs.e)), ..pre.regs })),
        0x24 => (r == 2) && (post == with_regs(pre, Registers { h: sla_value(pre.regs.h), f: shift_flags(sla_value(pre.regs.h), out_left(pre.regs.h)), ..pre.regs })),
        0x25 => (r == 2) && (post == with_regs(pre, Registers { l: sla_value(pre.regs.l), f: shift_flags(sla_value(pre.regs.l), out_left(pre.regs.l)), ..pre.regs })),
        0x26 => (r == 4) && (post.regs == (Registers { f: shift_flags(sla_value(at_hl(pre)), out_left(at_hl(pre))), ..pre.regs })) && (pre.mem.written(pre.regs.spec_hl(), sla_value(at_hl(pre)), post.mem)) && (same_control(pre, post)),
        0x27 => (r == 2) && (post == with_regs(pre, Registers { a: sla_value(pre.regs.a), f: shift_flags(sla_value(pre.regs.a), out_left(pre.regs.a)), ..pre.regs })),
        0x28 => (r == 2) && (post == with_regs(pre, Registers { b: sra_value(pre.regs.b), f: shift_flags(sra_value(pre.regs.b), out_right(pre.regs.b)), ..pre.regs })),
        0x29 => (r == 2) && (post == with_regs(pre, Registers { c: sra_value(pre.regs.c), f: shift_flags(sra_value(pre.regs.c), out_right(pre.regs.c)), ..pre.regs })),
        0x2A => (r == 2) && (post == with_regs(pre, Registers { d: sra_value(pre.regs.d), f: shift_flags(sra_value(pre.regs.d), out_right(pre.regs.d)), ..pre.regs })),
        0x2B => (r == 2) && (post == with_regs(pre, Registers { e: sra_value(pre.regs.e), f: shift_flags(sra_value(pre.regs.e), out_right(pre.regs.e)), ..pre.regs })),
        0x2C => (r == 2) && (post == with_regs(pre, Registers { h: sra_value(pre.regs.h), f: shift_flags(sra_value(pre.regs.h), out_right(pre.regs.h)), ..pre.regs })),
        0x2D => (r == 2) && (post == with_regs(pre, Registers { l: sra_value(pre.regs.l), f: shift_flags(sra_value(pre.regs.l), out_right(pre.regs.l)), ..pre.regs })),
        0x2E => (r == 4) && (post.regs == (Registers { f: shift_flags(sra_value(at_hl(pre)), out_right(at_hl(pre))), ..pre.regs })) && (pre.mem.written(pre.regs.spec_hl(), sra_value(at_hl(pre)), post.mem)) && (same_control(pre, post)),
        0x2F => (r == 2) && (post == with_regs(pre, Registers { a: sra_value(pre.regs.a), f: shift_flags(sra_value(pre.regs.a), out_right(pre.regs.a)), ..pre.regs })),
        0x30 => (r == 2) && (post == with_regs(pre, Registers { b: swap_value(pre.regs.b), f: shift_flags(swap_value(pre.regs.b), false), ..pre.regs })),
        0x31 => (r == 2) && (post == with_regs(pre, Registers { c: swap_value(pre.regs.c), f: shift_flags(swap_value(pre.regs.c), false), ..pre.regs })),
        0x32 => (r == 2) && (post == with_regs(pre, Registers { d: swap_value(pre.regs.d), f: shift_flags(swap_value(pre.regs.d), false), ..pre.regs })),
        0x33 => (r == 2) && (post == with_regs(pre, Registers { e: swap_value(pre.regs.e), f: shift_flags(swap_value(pre.regs.e), false), ..pre.regs })),
        0x34 => (r == 2) && (post == with_regs(pre, Registers { h: swap_value(pre.regs.h), f: shift_flags(swap_value(pre.regs.h), false), ..pre.regs })),
        0x35 => (r == 2) && (post == with_regs(pre, Registers { l: swap_value(pre.regs.l), f: shift_flags(swap_value(pre.regs.l), false), ..pre.regs })),
        0x36 => (r == 4) && (post.regs == (Registers { f: shift_flags(swap_value(at_hl(pre)), false), ..pre.regs })) && (pre.mem.written(pre.regs.spec_hl(), swap_value(at_hl(pre)), post.mem)) && (same_control(pre, post)),
        0x37 => (r == 2) && (post == with_regs(pre, Registers { a: swap_value(pre.regs.a), f: shift_flags(swap_value(pre.regs.a), false), ..pre.regs })),
        0x38 => (r == 2) && (post == with_regs(pre, Registers { b: srl_value(pre.regs.b), f: shift_flags(srl_value(pre.regs.b), out_right(pre.regs.b)), ..pre.regs })),
        0x39 => (r == 2) && (post == with_regs(pre, Registers { c: srl_value(pre.regs.c), f: shift_flags(srl_value(pre.regs.c), out_right(pre.regs.c)), ..pre.regs })),
        0x3A => (r == 2) && (post == with_regs(pre, Registers { d: srl_value(pre.regs.d), f: shift_flags(srl_value(pre.regs.d), out_right(pre.regs.d)), ..pre.regs })),
        0x3B => (r == 2) && (post == with_regs(pre, Registers { e: srl_value(pre.regs.e), f: shift_flags(srl_value(pre.regs.e), out_right(pre.regs.e)), ..pre.regs })),
        0x3C => (r == 2) && (post == with_regs(pre, Registers { h: srl_value(pre.regs.h), f: shift_flags(srl_value(pre.regs.h), out_right(pre.regs.h)), ..pre.regs })),
        0x3D => (r == 2) && (post == with_regs(pre, Registers { l: srl_value(pre.regs.l), f: shift_flags(srl_value(pre.regs.l), out_right(pre.regs.l)), ..pre.regs })),
        0x3E => (r == 4) && (post.regs == (Registers { f: shift_flags(srl_value(at_hl(pre)), out_right(at_hl(pre))), ..pre.regs })) && (pre.mem.written(pre.regs.spec_hl(), srl_value(at_hl(pre)), post.mem)) && (same_control(pre, post)),
        0x3F => (r == 2) && (post == with_regs(pre, Registers { a: srl_value(pre.regs.a), f: shift_flags(srl_value(pre.regs.a), out_right(pre.regs.a)), ..pre.regs })),
        0x40 => (r == 2) && (post == with_regs(pre, Registers { f: bit_flags(pre.regs.b, 0, pre.regs.f), ..pre.regs })),
        0x41 => (r == 2) && (post == with_regs(pre, Registers { f: bit_flags(pre.regs.c, 0, pre.regs.f), ..pre.regs })),
        0x42 => (r == 2) && (post == with_regs(pre, Registers { f: bit_flags(pre.regs.d, 0, pre.regs.f), ..pre.regs })),
        0x43 => (r == 2) && (post == with_regs(pre, Registers { f: bit_flags(pre.regs.e, 0, pre.regs.f), ..pre.regs })),
        0x44 => (r == 2) && (post == with_regs(pre, Registers { f: bit_flags(pre.regs.h, 0, pre.regs.f), ..pre.regs })),
        0x45 => (r == 2) && (post == with_regs(pre, Registers { f: bit_flags(pre.regs.l, 0, pre.regs.f), ..pre.regs })),
        0x46 => (r == 3) && (post == with_regs(pre, Registers { f: bit_flags(at_hl(pre), 0, pre.regs.f), ..pre.regs })),
        0x47 => (r == 2) && (post == with_regs(pre, Registers { f: bit_flags(pre.regs.a, 0, pre.regs.f), ..pre.regs })),
        0x48 => (r == 2) && (post == with_regs(pre, Registers { f: bit_flags(pre.regs.b, 1, pre.regs.f), ..pre.regs })),
        0x49 => (r == 2) && (post == with_regs(pre, Registers { f: bit_flags(pre.regs.c, 1, pre.regs.f), ..pre.regs })),
        0x4A => (r == 2) && (post == with_regs(pre, Registers { f: bit_flags(pre.regs.d, 1, pre.regs.f), ..pre.regs })),
        0x4B => (r == 2) && (post == with_regs(pre, Registers { f: bit_flags(pre.regs.e, 1, pre.regs.f), ..pre.regs })),
        0x4C => (r == 2) && (post == with_regs(pre, Registers { f: bit_flags(pre.regs.h, 1, pre.regs.f), ..pre.regs })),
        0x4D => (r == 2) && (post == with_regs(pre, Registers { f: bit_flags(pre.regs.l, 1, pre.regs.f), ..pre.regs })),
        0x4E => (r == 3) && (post == with_regs(pre, Registers { f: bit_flags(at_hl(pre), 1, pre.regs.f), ..pre.regs })),
        0x4F => (r == 2) && (post == with_regs(pre, Registers { f: bit_flags(pre.regs.a, 1, pre.regs.f), ..pre.regs })),
        0x50 => (r == 2) && (post == with_regs(pre, Registers { f: bit_flags(pre.regs.b, 2, pre.regs.f), ..pre.regs })),
        0x51 => (r == 2) && (post == with_regs(pre, Registers { f: bit_flags(pre.regs.c, 2, pre.regs.f), ..pre.regs })),
        0x52 => (r == 2) && (post == with_regs(pre, Registers { f: bit_flags(pre.regs.d, 2, pre.regs.f), ..pre.regs })),
        0x53 => (r == 2) && (post == with_regs(pre, Registers { f: bit_flags(pre.regs.e, 2, pre.regs.f), ..pre.regs })),
        0x54 => (r == 2) && (post == with_regs(pre, Registers { f: bit_flags(pre.regs.h, 2, pre.regs.f), ..pre.regs })),
        0x55 => (r == 2) && (post == with_regs(pre, Registers { f: bit_flags(pre.regs.l, 2, pre.regs.f), ..pre.regs })),
        0x56 => (r == 3) && (post == with_regs(pre, Registers { f: bit_flags(at_hl(pre), 2, pre.regs.f), ..pre.regs })),
        0x57 => (r == 2) && (post == with_regs(pre, Registers { f: bit_flags(pre.regs.a, 2, pre.regs.f), ..pre.regs })),
        0x58 => (r == 2) && (post == with_regs(pre, Registers { f: bit_flags(pre.regs.b, 3, pre.regs.f), ..pre.regs })),
        0x59 => (r == 2) && (post == with_regs(pre, Registers { f: bit_flags(pre.regs.c, 3, pre.regs.f), ..pre.regs })),
        0x5A => (r == 2) && (post == with_regs(pre, Registers { f: bit_flags(pre.regs.d, 3, pre.regs.f), ..pre.regs })),
        0x5B => (r == 2) && (post == with_regs(pre, Registers { f: bit_flags(pre.regs.e, 3, pre.regs.f), ..pre.regs })),
        0x5C => (r == 2) && (post == with_regs(pre, Registers { f: bit_flags(pre.regs.h, 3, pre.regs.f), ..pre.regs })),
        0x5D => (r == 2) && (post == with_regs(pre, Registers { f: bit_flags(pre.regs.l, 3, pre.regs.f), ..pre.regs })),
        0x5E => (r == 3) && (post == with_regs(pre, Registers { f: bit_flags(at_hl(pre), 3, pre.regs.f), ..pre.regs })),
        0x5F => (r == 2) && (post == with_regs(pre, Registers { f: bit_flags(pre.regs.a, 3, pre.regs.f), ..pre.regs })),
        0x60 => (r == 2) && (post == with_regs(pre, Registers { f: bit_flags(pre.regs.b, 4, pre.regs.f), ..pre.regs })),
        0x61 => (r == 2) && (post == with_regs(pre, Registers { f: bit_flags(pre.regs.c, 4, pre.regs.f), ..pre.regs })),
        0x62 => (r == 2) && (post == with_regs(pre, Registers { f: bit_flags(pre.regs.d, 4, pre.regs.f), ..pre.regs })),
        0x63 => (r == 2) && (post == with_regs(pre, Registers { f: bit_flags(pre.regs.e, 4, pre.regs.f), ..pre.regs })),
        0x64 => (r == 2) && (post == with_regs(pre, Registers { f: bit_flags(pre.regs.h, 4, pre.regs.f), ..pre.regs })),
        0x65 => (r == 2) && (post == with_regs(pre, Registers { f: bit_flags(pre.regs.l, 4, pre.regs.f), ..pre.regs })),
        0x66 => (r == 3) && (post == with_regs(pre, Registers { f: bit_flags(at_hl(pre), 4, pre.regs.f), ..pre.regs })),
        0x67 => (r == 2) && (post == with_regs(pre, Registers { f: bit_flags(pre.regs.a, 4, pre.regs.f), ..pre.regs })),
        0x68 => (r == 2) && (post == with_regs(pre, Registers { f: bit_flags(pre.regs.b, 5, pre.regs.f), ..pre.regs })),
        0x69 => (r == 2) && (post == with_regs(pre, Registers { f: bit_flags(pre.regs.c, 5, pre.regs.f), ..pre.regs })),
        0x6A => (r == 2) && (post == with_regs(pre, Registers { f: bit_flags(pre.regs.d, 5, pre.regs.f), ..pre.regs })),
        0x6B => (r == 2) && (post == with_regs(pre, Registers { f: bit_flags(pre.regs.e, 5, pre.regs.f), ..pre.regs })),
        0x6C => (r == 2) && (post == with_regs(pre, Registers { f: bit_flags(pre.regs.h, 5, pre.regs.f), ..pre.regs })),
        0x6D => (r == 2) && (post == with_regs(pre, Registers { f: bit_flags(pre.regs.l, 5, pre.regs.f), ..pre.regs })),
        0x6E => (r == 3) && (post == with_regs(pre, Registers { f: bit_flags(at_hl(pre), 5, pre.regs.f), ..pre.regs })),
        0x6F => (r == 2) && (post == with_regs(pre, Registers { f: bit_flags(pre.regs.a, 5, pre.regs.f), ..pre.regs })),
        0x70 => (r == 2) && (post == with_regs(pre, Registers { f: bit_flags(pre.regs.b, 6, pre.regs.f), ..pre.regs })),
        0x71 => (r == 2) && (post == with_regs(pre, Registers { f: bit_flags(pre.regs.c, 6, pre.regs.f), ..pre.regs })),
        0x72 => (r == 2) && (post == with_regs(pre, Registers { f: bit_flags(pre.regs.d, 6, pre.regs.f), ..pre.regs })),
        0x73 => (r == 2) && (post == with_regs(pre, Registers { f: bit_flags(pre.regs.e, 6, pre.regs.f), ..pre.regs })),
        0x74 => (r == 2) && (post == with_regs(pre, Registers { f: bit_flags(pre.regs.h, 6, pre.regs.f), ..pre.regs })),
        0x75 => (r == 2) && (post == with_regs(pre, Registers { f: bit_flags(pre.regs.l, 6, pre.regs.f), ..pre.regs })),
        0x76 => (r == 3) && (post == with_regs(pre, Registers { f: bit_flags(at_hl(pre), 6, pre.regs.f), ..pre.regs })),
        0x77 => (r == 2) && (post == with_regs(pre, Registers { f: bit_flags(pre.regs.a, 6, pre.regs.f), ..pre.regs })),
        0x78 => (r == 2) && (post == with_regs(pre, Registers { f: bit_flags(pre.regs.b, 7, pre.regs.f), ..pre.regs })),
        0x79 => (r == 2) && (post == with_regs(pre, Registers { f: bit_flags(pre.regs.c, 7, pre.regs.f), ..pre.regs })),
        0x7A => (r == 2) && (post == with_regs(pre, Registers { f: bit_flags(pre.regs.d, 7, pre.regs.f), ..pre.regs })),
        0x7B => (r == 2) && (post == with_regs(pre, Registers { f: bit_flags(pre.regs.e, 7, pre.regs.f), ..pre.regs })),
        0x7C => (r == 2) && (post == with_regs(pre, Registers { f: bit_flags(pre.regs.h, 7, pre.regs.f), ..pre.regs })),
        0x7D => (r == 2) && (post == with_regs(pre, Registers { f: bit_flags(pre.regs.l, 7, pre.regs.f), ..pre.regs })),
        0x7E => (r == 3) && (post == with_regs(pre, Registers { f: bit_flags(at_hl(pre), 7, pre.regs.f), ..pre.regs })),
        0x7F => (r == 2) && (post == with_regs(pre, Registers { f: bit_flags(pre.regs.a, 7, pre.regs.f), ..pre.regs })),
        0x80 => (r == 2) && (post == with_regs(pre, Registers { b: reset_bit(pre.regs.b, 0), ..pre.regs })),
        0x81 => (r == 2) && (post == with_regs(pre, Registers { c: reset_bit(pre.regs.c, 0), ..pre.regs })),
        0x82 => (r == 2) && (post == with_regs(pre, Registers { d: reset_bit(pre.regs.d, 0), ..pre.regs })),
        0x83 => (r == 2) && (post == with_regs(pre, Registers { e: reset_bit(pre.regs.e, 0), ..pre.regs })),
        0x84 => (r == 2) && (post == with_regs(pre, Registers { h: reset_bit(pre.regs.h, 0), ..pre.regs })),
        0x85 => (r == 2) && (post == with_regs(pre, Registers { l: reset_bit(pre.regs.l, 0), ..pre.regs })),
        0x86 => (r == 4) && (post.regs == pre.regs) && (pre.mem.written(pre.regs.spec_hl(), reset_bit(at_hl(pre), 0), post.mem)) && (same_control(pre, post)),
        0x87 => (r == 2) && (post == with_regs(pre, Registers { a: reset_bit(pre.regs.a, 0), ..pre.regs })),
        0x88 => (r == 2) && (post == with_regs(pre, Registers { b: reset_bit(pre.regs.b, 1), ..pre.regs })),
        0x89 => (r == 2) && (post == with_regs(pre, Registers { c: reset_bit(pre.regs.c, 1), ..pre.regs })),
        0x8A => (r == 2) && (post == with_regs(pre, Registers { d: reset_bit(pre.regs.d, 1), ..pre.regs })),
        0x8B => (r == 2) && (post == with_regs(pre, Registers { e: reset_bit(pre.regs.e, 1), ..pre.regs })),
        0x8C => (r == 2) && (post == with_regs(pre, Registers { h: reset_bit(pre.regs.h, 1), ..pre.regs })),
        0x8D => (r == 2) && (post == with_regs(pre, Registers { l: reset_bit(pre.regs.l, 1), ..pre.regs })),
        0x8E => (r == 4) && (post.regs == pre.regs) && (pre.mem.written(pre.regs.spec_hl(), reset_bit(at_hl(pre), 1), post.mem)) && (same_control(pre, post)),
        0x8F => (r == 2) && (post == with_regs(pre, Registers { a: reset_bit(pre.regs.a, 1), ..pre.regs })),
        0x90 => (r == 2) && (post == with_regs(pre, Registers { b: reset_bit(pre.regs.b, 2), ..pre.regs })),
        0x91 => (r == 2) && (post == with_regs(pre, Registers { c: reset_bit(pre.regs.c, 2), ..pre.regs })),
        0x92 => (r == 2) && (post == with_regs(pre, Registers { d: reset_bit(pre.regs.d, 2), ..pre.regs })),
        0x93 => (r == 2) && (post == with_regs(pre, Registers { e: reset_bit(pre.regs.e, 2), ..pre.regs })),
        0x94 => (r == 2) && (post == with_regs(pre, Registers { h: reset_bit(pre.regs.h, 2), ..pre.regs })),
        0x95 => (r == 2) && (post == with_regs(pre, Registers { l: reset_bit(pre.regs.l, 2), ..pre.regs })),
        0x96 => (r == 4) && (post.regs == pre.regs) && (pre.mem.written(pre.regs.spec_hl(), reset_bit(at_hl(pre), 2), post.mem)) && (same_control(pre, post)),
        0x97 => (r == 2) && (post == with_regs(pre, Registers { a: reset_bit(pre.regs.a, 2), ..pre.regs })),
        0x98 => (r == 2) && (post == with_regs(pre, Registers { b: reset_bit(pre.regs.b, 3), ..pre.regs })),
        0x99 => (r == 2) && (post == with_regs(pre, Registers { c: reset_bit(pre.regs.c, 3), ..pre.regs })),
        0x9A => (r == 2) && (post == with_regs(pre, Registers { d: reset_bit(pre.regs.d, 3), ..pre.regs })),
        0x9B => (r == 2) && (post == with_regs(pre, Registers { e: reset_bit(pre.regs.e, 3), ..pre.regs })),
        0x9C => (r == 2) && (post == with_regs(pre, Registers { h: reset_bit(pre.regs.h, 3), ..pre.regs })),
        0x9D => (r == 2) && (post == with_regs(pre, Registers { l: reset_bit(pre.regs.l, 3), ..pre.regs })),
        0x9E => (r == 4) && (post.regs == pre.regs) && (pre.mem.written(pre.regs.spec_hl(), reset_bit(at_hl(pre), 3), post.mem)) && (same_control(pre, post)),
        0x9F => (r == 2) && (post == with_regs(pre, Registers { a: reset_bit(pre.regs.a, 3), ..pre.regs })),
        0xA0 => (r == 2) && (post == with_regs(pre, Registers { b: reset_bit(pre.regs.b, 4), ..pre.regs })),
        0xA1 => (r == 2) && (post == with_regs(pre, Registers { c: reset_bit(pre.regs.c, 4), ..pre.regs })),
        0xA2 => (r == 2) && (post == with_regs(pre, Registers { d: reset_bit(pre.regs.d, 4), ..pre.regs })),
        0xA3 => (r == 2) && (post == with_regs(pre, Registers { e: reset_bit(pre.regs.e, 4), ..pre.regs })),
        0xA4 => (r == 2) && (post == with_regs(pre, Registers { h: reset_bit(pre.regs.h, 4), ..pre.regs })),
        0xA5 => (r == 2) && (post == with_regs(pre, Registers { l: reset_bit(pre.regs.l, 4), ..pre.regs })),
        0xA6 => (r == 4) && (post.regs == pre.regs) && (pre.mem.written(pre.regs.spec_hl(), reset_bit(at_hl(pre), 4), post.mem)) && (same_control(pre, post)),
        0xA7 => (r == 2) && (post == with_regs(pre, Registers { a: reset_bit(pre.regs.a, 4), ..pre.regs })),
        0xA8 => (r == 2) && (post == with_regs(pre, Registers { b: reset_bit(pre.regs.b, 5), ..pre.regs })),
        0xA9 => (r == 2) && (post == with_regs(pre, Registers { c: reset_bit(pre.regs.c, 5), ..pre.regs })),
        0xAA => (r == 2) && (post == with_regs(pre, Registers { d: reset_bit(pre.regs.d, 5), ..pre.regs })),
        0xAB => (r == 2) && (post == with_regs(pre, Registers { e: reset_bit(pre.regs.e, 5), ..pre.regs })),
        0xAC => (r == 2) && (post == with_regs(pre, Registers { h: reset_bit(pre.regs.h, 5), ..pre.regs })),
        0xAD => (r == 2) && (post == with_regs(pre, Registers { l: reset_bit(pre.regs.l, 5), ..pre.regs })),
        0xAE => (r == 4) && (post.regs == pre.regs) && (pre.mem.written(pre.regs.spec_hl(), reset_bit(at_hl(pre), 5), post.mem)) && (same_control(pre, post)),
        0xAF => (r == 2) && (post == with_regs(pre, Registers { a: reset_bit(pre.regs.a, 5), ..pre.regs })),
        0xB0 => (r == 2) && (post == with_regs(pre, Registers { b: reset_bit(pre.regs.b, 6), ..pre.regs })),
        0xB1 => (r == 2) && (post == with_regs(pre, Registers { c: reset_bit(pre.regs.c, 6), ..pre.regs })),
        0xB2 => (r == 2) && (post == with_regs(pre, Registers { d: reset_bit(pre.regs.d, 6), ..pre.regs })),
        0xB3 => (r == 2) && (post == with_regs(pre, Registers { e: reset_bit(pre.regs.e, 6), ..pre.regs })),
        0xB4 => (r == 2) && (post == with_regs(pre, Registers { h: reset_bit(pre.regs.h, 6), ..pre.regs })),
        0xB5 => (r == 2) && (post == with_regs(pre, Registers { l: reset_bit(pre.regs.l, 6), ..pre.regs })),
        0xB6 => (r == 4) && (post.regs == pre.regs) && (pre.mem.written(pre.regs.spec_hl(), reset_bit(at_hl(pre), 6), post.mem)) && (same_control(pre, post)),
        0xB7 => (r == 2) && (post == with_regs(pre, Registers { a: reset_bit(pre.regs.a, 6), ..pre.regs })),
        0xB8 => (r == 2) && (post == with_regs(pre, Registers { b: reset_bit(pre.regs.b, 7), ..pre.regs })),
        0xB9 => (r == 2) && (post == with_regs(pre, Registers { c: reset_bit(pre.regs.c, 7), ..pre.regs })),
        0xBA => (r == 2) && (post == with_regs(pre, Registers { d: reset_bit(pre.regs.d, 7), ..pre.regs })),
        0xBB => (r == 2) && (post == with_regs(pre, Registers { e: reset_bit(pre.regs.e, 7), ..pre.regs })),
        0xBC => (r == 2) && (post == with_regs(pre, Registers { h: reset_bit(pre.regs.h, 7), ..pre.regs })),
        0xBD => (r == 2) && (post == with_regs(pre, Registers { l: reset_bit(pre.regs.l, 7), ..pre.regs })),
        0xBE => (r == 4) && (post.regs == pre.regs) && (pre.mem.written(pre.regs.spec_hl(), reset_bit(at_hl(pre), 7), post.mem)) && (same_control(pre, post)),
        0xBF => (r == 2) && (post == with_regs(pre, Registers { a: reset_bit(pre.regs.a, 7), ..pre.regs })),
        0xC0 => (r == 2) && (post == with_regs(pre, Registers { b: set_bit(pre.regs.b, 0), ..pre.regs })),
        0xC1 => (r == 2) && (post == with_regs(pre, Registers { c: set_bit(pre.regs.c, 0), ..pre.regs })),
        0xC2 => (r == 2) && (post == with_regs(pre, Registers { d: set_bit(pre.regs.d, 0), ..pre.regs })),
        0xC3 => (r == 2) && (post == with_regs(pre, Registers { e: set_bit(pre.regs.e, 0), ..pre.regs })),
        0xC4 => (r == 2) && (post == with_regs(pre, Registers { h: set_bit(pre.regs.h, 0), ..pre.regs })),
        0xC5 => (r == 2) && (post == with_regs(pre, Registers { l: set_bit(pre.regs.l, 0), ..pre.regs })),
        0xC6 => (r == 4) && (post.regs == pre.regs) && (pre.mem.written(pre.regs.spec_hl(), set_bit(at_hl(pre), 0), post.mem)) && (same_control(pre, post)),
        0xC7 => (r == 2) && (post == with_regs(pre, Registers { a: set_bit(pre.regs.a, 0), ..pre.regs })),
        0xC8 => (r == 2) && (post == with_regs(pre, Registers { b: set_bit(pre.regs.b, 1), ..pre.regs })),
        0xC9 => (r == 2) && (post == with_regs(pre, Registers { c: set_bit(pre.regs.c, 1), ..pre.regs })),
        0xCA => (r == 2) && (post == with_regs(pre, Registers { d: set_bit(pre.regs.d, 1), ..pre.regs })),
        0xCB => (r == 2) && (post == with_regs(pre, Registers { e: set_bit(pre.regs.e, 1), ..pre.regs })),
        0xCC => (r == 2) && (post == with_regs(pre, Registers { h: set_bit(pre.regs.h, 1), ..pre.regs })),
        0xCD => (r == 2) && (post == with_regs(pre, Registers { l: set_bit(pre.regs.l, 1), ..pre.regs })),
        0xCE => (r == 4) && (post.regs == pre.regs) && (pre.mem.written(pre.regs.spec_hl(), set_bit(at_hl(pre), 1), post.mem)) && (same_control(pre, post)),
        0xCF => (r == 2) && (post == with_regs(pre, Registers { a: set_bit(pre.regs.a, 1), ..pre.regs })),
        0xD0 => (r == 2) && (post == with_regs(pre, Registers { b: set_bit(pre.regs.b, 2), ..pre.regs })),
        0xD1 => (r == 2) && (post == with_regs(pre, Registers { c: set_bit(pre.regs.c, 2), ..pre.regs })),
        0xD2 => (r == 2) && (post == with_regs(pre, Registers { d: set_bit(pre.regs.d, 2), ..pre.regs })),
        0xD3 => (r == 2) && (post == with_regs(pre, Registers { e: set_bit(pre.regs.e, 2), ..pre.regs })),
        0xD4 => (r == 2) && (post == with_regs(pre, Registers { h: set_bit(pre.regs.h, 2), ..pre.regs })),
        0xD5 => (r == 2) && (post == with_regs(pre, Registers { l: set_bit(pre.regs.l, 2), ..pre.regs })),
        0xD6 => (r == 4) && (post.regs == pre.regs) && (pre.mem.written(pre.regs.spec_hl(), set_bit(at_hl(pre), 2), post.mem)) && (same_control(pre, post)),
        0xD7 => (r == 2) && (post == with_regs(pre, Registers { a: set_bit(pre.regs.a, 2), ..pre.regs })),
        0xD8 => (r == 2) && (post == with_regs(pre, Registers { b: set_bit(pre.regs.b, 3), ..pre.regs })),
        0xD9 => (r == 2) && (post == with_regs(pre, Registers { c: set_bit(pre.regs.c, 3), ..pre.regs })),
        0xDA => (r == 2) && (post == with_regs(pre, Registers { d: set_bit(pre.regs.d, 3), ..pre.regs })),
        0xDB => (r == 2) && (post == with_regs(pre, Registers { e: set_bit(pre.regs.e, 3), ..pre.regs })),
        0xDC => (r == 2) && (post == with_regs(pre, Registers { h: set_bit(pre.regs.h, 3), ..pre.regs })),
        0xDD => (r == 2) && (post == with_regs(pre, Registers { l: set_bit(pre.regs.l, 3), ..pre.regs })),
        0xDE => (r == 4) && (post.regs == pre.regs) && (pre.mem.written(pre.regs.spec_hl(), set_bit(at_hl(pre), 3), post.mem)) && (same_control(pre, post)),
        0xDF => (r == 2) && (post == with_regs(pre, Registers { a: set_bit(pre.regs.a, 3), ..pre.regs })),
        0xE0 => (r == 2) && (post == with_regs(pre, Registers { b: set_bit(pre.regs.b, 4), ..pre.regs })),
        0xE1 => (r == 2) && (post == with_regs(pre, Registers { c: set_bit(pre.regs.c, 4), ..pre.regs })),
        0xE2 => (r == 2) && (post == with_regs(pre, Registers { d: set_bit(pre.regs.d, 4), ..pre.regs })),
        0xE3 => (r == 2) && (post == with_regs(pre, Registers { e: set_bit(pre.regs.e, 4), ..pre.regs })),
        0xE4 => (r == 2) && (post == with_regs(pre, Registers { h: set_bit(pre.regs.h, 4), ..pre.regs })),
        0xE5 => (r == 2) && (post == with_regs(pre, Registers { l: set_bit(pre.regs.l, 4), ..pre.regs })),
        0xE6 => (r == 4) && (post.regs == pre.regs) && (pre.mem.written(pre.regs.spec_hl(), set_bit(at_hl(pre), 4), post.mem)) && (same_control(pre, post)),
        0xE7 => (r == 2) && (post == with_regs(pre, Registers { a: set_bit(pre.regs.a, 4), ..pre.regs })),
        0xE8 => (r == 2) && (post == with_regs(pre, Registers { b: set_bit(pre.regs.b, 5), ..pre.regs })),
        0xE9 => (r == 2) && (post == with_regs(pre, Registers { c: set_bit(pre.regs.c, 5), ..pre.regs })),
        0xEA => (r == 2) && (post == with_regs(pre, Registers { d: set_bit(pre.regs.d, 5), ..pre.regs })),
        0xEB => (r == 2) && (post == with_regs(pre, Registers { e: set_bit(pre.regs.e, 5), ..pre.regs })),
        0xEC => (r == 2) && (post == with_regs(pre, Registers { h: set_bit(pre.regs.h, 5), ..pre.regs })),
        0xED => (r == 2) && (post == with_regs(pre, Registers { l: set_bit(pre.regs.l, 5), ..pre.regs })),
        0xEE => (r == 4) && (post.regs == pre.regs) && (pre.mem.written(pre.regs.spec_hl(), set_bit(at_hl(pre), 5), post.mem)) && (same_control(pre, post)),
        0xEF => (r == 2) && (post == with_regs(pre, Registers { a: set_bit(pre.regs.a, 5), ..pre.regs })),
        0xF0 => (r == 2) && (post == with_regs(pre, Registers { b: set_bit(pre.regs.b, 6), ..pre.regs })),
        0xF1 => (r == 2) && (post == with_regs(pre, Registers { c: set_bit(pre.regs.c, 6), ..pre.regs })),
        0xF2 => (r == 2) && (post == with_regs(pre, Registers { d: set_bit(pre.regs.d, 6), ..pre.regs })),
        0xF3 => (r == 2) && (post == with_regs(pre, Registers { e: set_bit(pre.regs.e, 6), ..pre.regs })),
        0xF4 => (r == 2) && (post == with_regs(pre, Registers { h: set_bit(pre.regs.h, 6), ..pre.regs })),
        0xF5 => (r == 2) && (post == with_regs(pre, Registers { l: set_bit(pre.regs.l, 6), ..pre.regs })),
        0xF6 => (r == 4) && (post.regs == pre.regs) && (pre.mem.written(pre.regs.spec_hl(), set_bit(at_hl(pre), 6), post.mem)) && (same_control(pre, post)),
        0xF7 => (r == 2) && (post == with_regs(pre, Registers { a: set_bit(pre.regs.a, 6), ..pre.regs })),
        0xF8 => (r == 2) && (post == with_regs(pre, Registers { b: set_bit(pre.regs.b, 7), ..pre.regs })),
        0xF9 => (r == 2) && (post == with_regs(pre, Registers { c: set_bit(pre.regs.c, 7), ..pre.regs })),
        0xFA => (r == 2) && (post == with_regs(pre, Registers { d: set_bit(pre.regs.d, 7), ..pre.regs })),
        0xFB => (r == 2) && (post == with_regs(pre, Registers { e: set_bit(pre.regs.e, 7), ..pre.regs })),
        0xFC => (r == 2) && (post == with_regs(pre, Registers { h: set_bit(pre.regs.h, 7), ..pre.regs })),
        0xFD => (r == 2) && (post == with_regs(pre, Registers { l: set_bit(pre.regs.l, 7), ..pre.regs })),
        0xFE => (r == 4) && (post.regs == pre.regs) && (pre.mem.written(pre.regs.spec_hl(), set_bit(at_hl(pre), 7), post.mem)) && (same_control(pre, post)),
        0xFF => (r == 2) && (post == with_regs(pre, Registers { a: set_bit(pre.regs.a, 7), ..pre.regs })),
    }
}

/// What the primary opcode `opcode` does once fetched: `post` is the state
/// it leaves from `pre` (PC already past the opcode), and `r` the machine
/// cycles it takes. Opcodes without an instruction halt the processor.
pub open spec fn primary_effect<M: Memory + MemoryManagementUnit>(
    opcode: u8,
    pre: Cpu<M>,
    post: Cpu<M>,
    r: CycleType,
) -> bool {
    match opcode {
        0x00 => (r == 1) && (post == pre),
        0x01 => (r == 3) && (post == with_regs(pre, Registers { b: high(imm16(pre)), c: low(imm16(pre)), pc: pc2(pre), ..pre.regs })),
        0x02 => (r == 2) && (post.regs == pre.regs) && (pre.mem.written(pre.regs.spec_bc(), pre.regs.a, post.mem)) && (same_control(pre, post)),
        0x03 => (r == 2) && (post == with_regs(pre, Registers { b: high(inc16(pre.regs.spec_bc())), c: low(inc16(pre.regs.spec_bc())), ..pre.regs })),
        0x04 => (r == 1) && (post == with_regs(pre, Registers { b: inc_value(pre.regs.b), f: inc_flags(pre.regs.b, pre.regs.f), ..pre.regs })),
        0x05 => (r == 1) && (post == with_regs(pre, Registers { b: dec_value(pre.regs.b), f: dec_flags(pre.regs.b, pre.regs.f), ..pre.regs })),
        0x06 => (r == 2) && (post == with_regs(pre, Registers { b: imm8(pre), pc: pc1(pre), ..pre.regs })),
        0x07 => (r == 1) && (post == with_regs(pre, Registers { a: rlc_value(pre.regs.a), f: flags_of(false, false, false, out_left(pre.regs.a)), ..pre.regs })),
        0x08 => (r == 5) && (post.regs == (Registers { pc: pc2(pre), ..pre.regs })) && (word_written(pre.mem, imm16(pre), pre.regs.sp, post.mem)) && (same_control(pre, post)),
        0x09 => (r == 2) && (post == with_regs(pre, add_hl_regs(pre.regs, pre.regs.spec_bc()))),
        0x0A => (r == 2) && (post == with_regs(pre, Registers { a: pre.mem.read_value(pre.regs.spec_bc()), ..pre.regs })),
        0x0B => (r == 2) && (post == with_regs(pre, Registers { b: high(dec16(pre.regs.spec_bc())), c: low(dec16(pre.regs.spec_bc())), ..pre.regs })),
        0x0C => (r == 1) && (post == with_regs(pre, Registers { c: inc_value(pre.regs.c), f: inc_flags(pre.regs.c, pre.regs.f), ..pre.regs })),
        0x0D => (r == 1) && (post == with_regs(pre, Registers { c: dec_value(pre.regs.c), f: dec_flags(pre.regs.c, pre.regs.f), ..pre.regs })),
        0x0E => (r == 2) && (post == with_regs(pre, Registers { c: imm8(pre), pc: pc1(pre), ..pre.regs })),
        0x0F => (r == 1) && (post == with_regs(pre, Registers { a: rrc_value(pre.regs.a), f: flags_of(false, false, false, out_right(pre.regs.a)), ..pre.regs })),
        0x10 => (r == 1) && (post == pre),
        0x11 => (r == 3) && (post == with_regs(pre, Registers { d: high(imm16(pre)), e: low(imm16(pre)), pc: pc2(pre), ..pre.regs })),
        0x12 => (r == 2) && (post.regs == pre.regs) && (pre.mem.written(pre.regs.spec_de(), pre.regs.a, post.mem)) && (same_control(pre, post)),
        0x13 => (r == 2) && (post == with_regs(pre, Registers { d: high(inc16(pre.regs.spec_de())), e: low(inc16(pre.regs.spec_de())), ..pre.regs })),
        0x14 => (r == 1) && (post == with_regs(pre, Registers { d: inc_value(pre.regs.d), f: inc_flags(pre.regs.d, pre.regs.f), ..pre.regs })),
        0x15 => (r == 1) && (post == with_regs(pre, Registers { d: dec_value(pre.regs.d), f: dec_flags(pre.regs.d, pre.regs.f), ..pre.regs })),
        0x16 => (r == 2) && (post == with_regs(pre, Registers { d: imm8(pre), pc: pc1(pre), ..pre.regs })),
        0x17 => (r == 1) && (post == with_regs(pre, Registers { a: rl_value(pre.regs.a, pre.regs.f), f: flags_of(false, false, false, out_left(pre.regs.a)), ..pre.regs })),
        0x18 => (r == 3) && (post == with_regs(pre, Registers { pc: offset16(pc1(pre), imm8(pre)), ..pre.regs })),
        0x19 => (r == 2) && (post == with_regs(pre, add_hl_regs(pre.regs, pre.regs.spec_de()))),
        0x1A => (r == 2) && (post == with_regs(pre, Registers { a: pre.mem.read_value(pre.regs.spec_de()), ..pre.regs })),
        0x1B => (r == 2) && (post == with_regs(pre, Registers { d: high(dec16(pre.regs.spec_de())), e: low(dec16(pre.regs.spec_de())), ..pre.regs })),
        0x1C => (r == 1) && (post == with_regs(pre, Registers { e: inc_value(pre.regs.e), f: inc_flags(pre.regs.e, pre.regs.f), ..pre.regs })),
        0x1D => (r == 1) && (post == with_regs(pre, Registers { e: dec_value(pre.regs.e), f: dec_flags(pre.regs.e, pre.regs.f), ..pre.regs })),
        0x1E => (r == 2) && (post == with_regs(pre, Registers { e: imm8(pre), pc: pc1(pre), ..pre.regs })),
        0x1F => (r == 1) && (post == with_regs(pre, Registers { a: rr_value(pre.regs.a, pre.regs.f), f: flags_of(false, false, false, out_right(pre.regs.a)), ..pre.regs })),
        0x20 => (r == (if !has_flag(pre.regs.f, Z_FLAG) { 3u64 } else { 2u64 })) && (post == with_regs(pre, Registers { pc: if !has_flag(pre.regs.f, Z_FLAG) { offset16(pc1(pre), imm8(pre)) } else { pc1(pre) }, ..pre.regs })),
        0x21 => (r == 3) && (post == with_regs(pre, Registers { h: high(imm16(pre)), l: low(imm16(pre)), pc: pc2(pre), ..pre.regs })),
        0x22 => (r == 2) && (post.regs == (Registers { h: high(inc16(pre.regs.spec_hl())), l: low(inc16(pre.regs.spec_hl())), ..pre.regs })) && (pre.mem.written(pre.regs.spec_hl(), pre.regs.a, post.mem)) && (same_control(pre, post)),
        0x23 => (r == 2) && (post == with_regs(pre, Registers { h: high(inc16(pre.regs.spec_hl())), l: low(inc16(pre.regs.spec_hl())), ..pre.regs })),
        0x24 => (r == 1) && (post == with_regs(pre, Registers { h: inc_value(pre.regs.h), f: inc_flags(pre.regs.h, pre.regs.f), ..pre.regs })),
        0x25 => (r == 1) && (post == with_regs(pre, Registers { h: dec_value(pre.regs.h), f: dec_flags(pre.regs.h, pre.regs.f), ..pre.regs })),
        0x26 => (r == 2) && (post == with_regs(pre, Registers { h: imm8(pre), pc: pc1(pre), ..pre.regs })),
        0x27 => (r == 1) && (post == with_regs(pre, daa_regs(pre.regs))),
        0x28 => (r == (if has_flag(pre.regs.f, Z_FLAG) { 3u64 } else { 2u64 })) && (post == with_regs(pre, Registers { pc: if has_flag(pre.regs.f, Z_FLAG) { offset16(pc1(pre), imm8(pre)) } else { pc1(pre) }, ..pre.regs })),
        0x29 => (r == 2) && (post == with_regs(pre, add_hl_regs(pre.regs, pre.regs.spec_hl()))),
        0x2A => (r == 2) && (post == with_regs(pre, Registers { a: at_hl(pre), h: high(inc16(pre.regs.spec_hl())), l: low(inc16(pre.regs.spec_hl())), ..pre.regs })),
        0x2B => (r == 2) && (post == with_regs(pre, Registers { h: high(dec16(pre.regs.spec_hl())), l: low(dec16(pre.regs.spec_hl())), ..pre.regs })),
        0x2C => (r == 1) && (post == with_regs(pre, Registers { l: inc_value(pre.regs.l), f: inc_flags(pre.regs.l, pre.regs.f), ..pre.regs })),
        0x2D => (r == 1) && (post == with_regs(pre, Registers { l: dec_value(pre.regs.l), f: dec_flags(pre.regs.l, pre.regs.f), ..pre.regs })),
        0x2E => (r == 2) && (post == with_regs(pre, Registers { l: imm8(pre), pc: pc1(pre), ..pre.regs })),
        0x2F => (r == 1) && (post == with_regs(pre, Registers { a: (255 - pre.regs.a) as u8, f: flags_of(has_flag(pre.regs.f, Z_FLAG), true, true, has_flag(pre.regs.f, C_FLAG)), ..pre.regs })),
        0x30 => (r == (if !has_flag(pre.regs.f, C_FLAG) { 3u64 } else { 2u64 })) && (post == with_regs(pre, Registers { pc: if !has_flag(pre.regs.f, C_FLAG) { offset16(pc1(pre), imm8(pre)) } else { pc1(pre) }, ..pre.regs })),
        0x31 => (r == 3) && (post == with_regs(pre, Registers { sp: imm16(pre), pc: pc2(pre), ..pre.regs })),
        0x32 => (r == 2) && (post.regs == (Registers { h: high(dec16(pre.regs.spec_hl())), l: low(dec16(pre.regs.spec_hl())), ..pre.regs })) && (pre.mem.written(pre.regs.spec_hl(), pre.regs.a, post.mem)) && (same_control(pre, post)),
        0x33 => (r == 2) && (post == with_regs(pre, Registers { sp: inc16(pre.regs.sp), ..pre.regs })),
        0x34 => (r == 3) && (post.regs == (Registers { f: inc_flags(at_hl(pre), pre.regs.f), ..pre.regs })) && (pre.mem.written(pre.regs.spec_hl(), inc_value(at_hl(pre)), post.mem)) && (same_control(pre, post)),
        0x35 => (r == 3) && (post.regs == (Registers { f: dec_flags(at_hl(pre), pre.regs.f), ..pre.regs })) && (pre.mem.written(pre.regs.spec_hl(), dec_value(at_hl(pre)), post.mem)) && (same_control(pre, post)),
        0x36 => (r == 3) && (post.regs == (Registers { pc: pc1(pre), ..pre.regs })) && (pre.mem.written(pre.regs.spec_hl(), imm8(pre), post.mem)) && (same_control(pre, post)),
        0x37 => (r == 1) && (post == with_regs(pre, Registers { f: flags_of(has_flag(pre.regs.f, Z_FLAG), false, false, true), ..pre.regs })),
        0x38 => (r == (if has_flag(pre.regs.f, C_FLAG) { 3u64 } else { 2u64 })) && (post == with_regs(pre, Registers { pc: if has_flag(pre.regs.f, C_FLAG) { offset16(pc1(pre), imm8(pre)) } else { pc1(pre) }, ..pre.regs })),
        0x39 => (r == 2) && (post == with_regs(pre, add_hl_regs(pre.regs, pre.regs.sp))),
        0x3A => (r == 2) && (post == with_regs(pre, Registers { a: at_hl(pre), h: high(dec16(pre.regs.spec_hl())), l: low(dec16(pre.regs.spec_hl())), ..pre.regs })),
        0x3B => (r == 2) && (post == with_regs(pre, Registers { sp: dec16(pre.regs.sp), ..pre.regs })),
        0x3C => (r == 1) && (post == with_regs(pre, Registers { a: inc_value(pre.regs.a), f: inc_flags(pre.regs.a, pre.regs.f), ..pre.regs })),
        0x3D => (r == 1) && (post == with_regs(pre, Registers { a: dec_value(pre.regs.a), f: dec_flags(pre.regs.a, pre.regs.f), ..pre.regs })),
        0x3E => (r == 2) && (post == with_regs(pre, Registers { a: imm8(pre), pc: pc1(pre), ..pre.regs })),
        0x3F => (r == 1) && (post == with_regs(pre, Registers { f: flags_of(has_flag(pre.regs.f, Z_FLAG), false, false, !has_flag(pre.regs.f, C_FLAG)), ..pre.regs })),
        0x40 => (r == 1) && (post == with_regs(pre, Registers { b: pre.regs.b, ..pre.regs })),
        0x41 => (r == 1) && (post == with_regs(pre, Registers { b: pre.regs.c, ..pre.regs })),
        0x42 => (r == 1) && (post == with_regs(pre, Registers { b: pre.regs.d, ..pre.regs })),
        0x43 => (r == 1) && (post == with_regs(pre, Registers { b: pre.regs.e, ..pre.regs })),
        0x44 => (r == 1) && (post == with_regs(pre, Registers { b: pre.regs.h, ..pre.regs })),
        0x45 => (r == 1) && (post == with_regs(pre, Registers { b: pre.regs.l, ..pre.regs })),
        0x46 => (r == 2) && (post == with_regs(pre, Registers { b: at_hl(pre), ..pre.regs })),
        0x47 => (r == 1) && (post == with_regs(pre, Registers { b: pre.regs.a, ..pre.regs })),
        0x48 => (r == 1) && (post == with_regs(pre, Registers { c: pre.regs.b, ..pre.regs })),
        0x49 => (r == 1) && (post == with_regs(pre, Registers { c: pre.regs.c, ..pre.regs })),
        0x4A => (r == 1) && (post == with_regs(pre, Registers { c: pre.regs.d, ..pre.regs })),
        0x4B => (r == 1) && (post == with_regs(pre, Registers { c: pre.regs.e, ..pre.regs })),
        0x4C => (r == 1) && (post == with_regs(pre, Registers { c: pre.regs.h, ..pre.regs })),
        0x4D => (r == 1) && (post == with_regs(pre, Registers { c: pre.regs.l, ..pre.regs })),
        0x4E => (r == 2) && (post == with_regs(pre, Registers { c: at_hl(pre), ..pre.regs })),
        0x4F => (r == 1) && (post == with_regs(pre, Registers { c: pre.regs.a, ..pre.regs })),
        0x50 => (r == 1) && (post == with_regs(pre, Registers { d: pre.regs.b, ..pre.regs })),
        0x51 => (r == 1) && (post == with_regs(pre, Registers { d: pre.regs.c, ..pre.regs })),
        0x52 => (r == 1) && (post == with_regs(pre, Registers { d: pre.regs.d, ..pre.regs })),
        0x53 => (r == 1) && (post == with_regs(pre, Registers { d: pre.regs.e, ..pre.regs })),
        0x54 => (r == 1) && (post == with_regs(pre, Registers { d: pre.regs.h, ..pre.regs })),
        0x55 => (r == 1) && (post == with_regs(pre, Registers { d: pre.regs.l, ..pre.regs })),
        0x56 => (r == 2) && (post == with_regs(pre, Registers { d: at_hl(pre), ..pre.regs })),
        0x57 => (r == 1) && (post == with_regs(pre, Registers { d: pre.regs.a, ..pre.regs })),
        0x58 => (r == 1) && (post == with_regs(pre, Registers { e: pre.regs.b, ..pre.regs })),
        0x59 => (r == 1) && (post == with_regs(pre, Registers { e: pre.regs.c, ..pre.regs })),
        0x5A => (r == 1) && (post == with_regs(pre, Registers { e: pre.regs.d, ..pre.regs })),
        0x5B => (r == 1) && (post == with_regs(pre, Registers { e: pre.regs.e, ..pre.regs })),
        0x5C => (r == 1) && (post == with_regs(pre, Registers { e: pre.regs.h, ..pre.regs })),
        0x5D => (r == 1) && (post == with_regs(pre, Registers { e: pre.regs.l, ..pre.regs })),
        0x5E => (r == 2) && (post == with_regs(pre, Registers { e: at_hl(pre), ..pre.regs })),
        0x5F => (r == 1) && (post == with_regs(pre, Registers { e: pre.regs.a, ..pre.regs })),
        0x60 => (r == 1) && (post == with_regs(pre, Registers { h: pre.regs.b, ..pre.regs })),
        0x61 => (r == 1) && (post == with_regs(pre, Registers { h: pre.regs.c, ..pre.regs })),
        0x62 => (r == 1) && (post == with_regs(pre, Registers { h: pre.regs.d, ..pre.regs })),
        0x63 => (r == 1) && (post == with_regs(pre, Registers { h: pre.regs.e, ..pre.regs })),
        0x64 => (r == 1) && (post == with_regs(pre, Registers { h: pre.regs.h, ..pre.regs })),
        0x65 => (r == 1) && (post == with_regs(pre, Registers { h: pre.regs.l, ..pre.regs })),
        0x66 => (r == 2) && (post == with_regs(pre, Registers { h: at_hl(pre), ..pre.regs })),
        0x67 => (r == 1) && (post == with_regs(pre, Registers { h: pre.regs.a, ..pre.regs })),
        0x68 => (r == 1) && (post == with_regs(pre, Registers { l: pre.regs.b, ..pre.regs })),
        0x69 => (r == 1) && (post == with_regs(pre, Registers { l: pre.regs.c, ..pre.regs })),
        0x6A => (r == 1) && (post == with_regs(pre, Registers { l: pre.regs.d, ..pre.regs })),
        0x6B => (r == 1) && (post == with_regs(pre, Registers { l: pre.regs.e, ..pre.regs })),
        0x6C => (r == 1) && (post == with_regs(pre, Registers { l: pre.regs.h, ..pre.regs })),
        0x6D => (r == 1) && (post == with_regs(pre, Registers { l: pre.regs.l, ..pre.regs })),
        0x6E => (r == 2) && (post == with_regs(pre, Registers { l: at_hl(pre), ..pre.regs })),
        0x6F => (r == 1) && (post == with_regs(pre, Registers { l: pre.regs.a, ..pre.regs })),
        0x70 => (r == 2) && (post.regs == pre.regs) && (pre.mem.written(pre.regs.spec_hl(), pre.regs.b, post.mem)) && (same_control(pre, post)),
        0x71 => (r == 2) && (post.regs == pre.regs) && (pre.mem.written(pre.regs.spec_hl(), pre.regs.c, post.mem)) && (same_control(pre, post)),
        0x72 => (r == 2) && (post.regs == pre.regs) && (pre.mem.written(pre.regs.spec_hl(), pre.regs.d, post.mem)) && (same_control(pre, post)),
        0x73 => (r == 2) && (post.regs == pre.regs) && (pre.mem.written(pre.regs.spec_hl(), pre.regs.e, post.mem)) && (same_control(pre, post)),
        0x74 => (r == 2) && (post.regs == pre.regs) && (pre.mem.written(pre.regs.spec_hl(), pre.regs.h, post.mem)) && (same_control(pre, post)),
        0x75 => (r == 2) && (post.regs == pre.regs) && (pre.mem.written(pre.regs.spec_hl(), pre.regs.l, post.mem)) && (same_control(pre, post)),
        0x76 => (r == 1) && (post == (Cpu { halted: true, if_reg_before_halt: pre.mem.read_value(0xFF0F), ..pre })),
        0x77 => (r == 2) && (post.regs == pre.regs) && (pre.mem.written(pre.regs.spec_hl(), pre.regs.a, post.mem)) && (same_control(pre, post)),
        0x78 => (r == 1) && (post == with_regs(pre, Registers { a: pre.regs.b, ..pre.regs })),
        0x79 => (r == 1) && (post == with_regs(pre, Registers { a: pre.regs.c, ..pre.regs })),
        0x7A => (r == 1) && (post == with_regs(pre, Registers { a: pre.regs.d, ..pre.regs })),
        0x7B => (r == 1) && (post == with_regs(pre, Registers { a: pre.regs.e, ..pre.regs })),
        0x7C => (r == 1) && (post == with_regs(pre, Registers { a: pre.regs.h, ..pre.regs })),
        0x7D => (r == 1) && (post == with_regs(pre, Registers { a: pre.regs.l, ..pre.regs })),
        0x7E => (r == 2) && (post == with_regs(pre, Registers { a: at_hl(pre), ..pre.regs })),
        0x7F => (r == 1) && (post == with_regs(pre, Registers { a: pre.regs.a, ..pre.regs })),
        0x80 => (r == 1) && (post == with_regs(pre, add_regs(pre.regs, pre.regs.b, false))),
        0x81 => (r == 1) && (post == with_regs(pre, add_regs(pre.regs, pre.regs.c, false))),
        0x82 => (r == 1) && (post == with_regs(pre, add_regs(pre.regs, pre.regs.d, false))),
        0x83 => (r == 1) && (post == with_regs(pre, add_regs(pre.regs, pre.regs.e, false))),
        0x84 => (r == 1) && (post == with_regs(pre, add_regs(pre.regs, pre.regs.h, false))),
        0x85 => (r == 1) && (post == with_regs(pre, add_regs(pre.regs, pre.regs.l, false))),
        0x86 => (r == 2) && (post == with_regs(pre, add_regs(pre.regs, at_hl(pre), false))),
        0x87 => (r == 1) && (post == with_regs(pre, add_regs(pre.regs, pre.regs.a, false))),
        0x88 => (r == 1) && (post == with_regs(pre, add_regs(pre.regs, pre.regs.b, true))),
        0x89 => (r == 1) && (post == with_regs(pre, add_regs(pre.regs, pre.regs.c, true))),
        0x8A => (r == 1) && (post == with_regs(pre, add_regs(pre.regs, pre.regs.d, true))),
        0x8B => (r == 1) && (post == with_regs(pre, add_regs(pre.regs, pre.regs.e, true))),
        0x8C => (r == 1) && (post == with_regs(pre, add_regs(pre.regs, pre.regs.h, true))),
        0x8D => (r == 1) && (post == with_regs(pre, add_regs(pre.regs, pre.regs.l, true))),
        0x8E => (r == 2) && (post == with_regs(pre, add_regs(pre.regs, at_hl(pre), true))),
        0x8F => (r == 1) && (post == with_regs(pre, add_regs(pre.regs, pre.regs.a, true))),
        0x90 => (r == 1) && (post == with_regs(pre, sub_regs(pre.regs, pre.regs.b, false))),
        0x91 => (r == 1) && (post == with_regs(pre, sub_regs(pre.regs, pre.regs.c, false))),
        0x92 => (r == 1) && (post == with_regs(pre, sub_regs(pre.regs, pre.regs.d, false))),
        0x93 => (r == 1) && (post == with_regs(pre, sub_regs(pre.regs, pre.regs.e, false))),
        0x94 => (r == 1) && (post == with_regs(pre, sub_regs(pre.regs, pre.regs.h, false))),
        0x95 => (r == 1) && (post == with_regs(pre, sub_regs(pre.regs, pre.regs.l, false))),
        0x96 => (r == 2) && (post == with_regs(pre, sub_regs(pre.regs, at_hl(pre), false))),
        0x97 => (r == 1) && (post == with_regs(pre, sub_regs(pre.regs, pre.regs.a, false))),
        0x98 => (r == 1) && (post == with_regs(pre, sub_regs(pre.regs, pre.regs.b, true))),
        0x99 => (r == 1) && (post == with_regs(pre, sub_regs(pre.regs, pre.regs.c, true))),
        0x9A => (r == 1) && (post == with_regs(pre, sub_regs(pre.regs, pre.regs.d, true))),
        0x9B => (r == 1) && (post == with_regs(pre, sub_regs(pre.regs, pre.regs.e, true))),
        0x9C => (r == 1) && (post == with_regs(pre, sub_regs(pre.regs, pre.regs.h, true))),
        0x9D => (r == 1) && (post == with_regs(pre, sub_regs(pre.regs, pre.regs.l, true))),
        0x9E => (r == 2) && (post == with_regs(pre, sub_regs(pre.regs, at_hl(pre), true))),
        0x9F => (r == 1) && (post == with_regs(pre, sub_regs(pre.regs, pre.regs.a, true))),
        0xA0 => (r == 1) && (post == with_regs(pre, and_regs(pre.regs, pre.regs.b))),
        0xA1 => (r == 1) && (post == with_regs(pre, and_regs(pre.regs, pre.regs.c))),
        0xA2 => (r == 1) && (post == with_regs(pre, and_regs(pre.regs, pre.regs.d))),
        0xA3 => (r == 1) && (post == with_regs(pre, and_regs(pre.regs, pre.regs.e))),
        0xA4 => (r == 1) && (post == with_regs(pre, and_regs(pre.regs, pre.regs.h))),
        0xA5 => (r == 1) && (post == with_regs(pre, and_regs(pre.regs, pre.regs.l))),
        0xA6 => (r == 2) && (post == with_regs(pre, and_regs(pre.regs, at_hl(pre)))),
        0xA7 => (r == 1) && (post == with_regs(pre, and_regs(pre.regs, pre.regs.a))),
        0xA8 => (r == 1) && (post == with_regs(pre, xor_regs(pre.regs, pre.regs.b))),
        0xA9 => (r == 1) && (post == with_regs(pre, xor_regs(pre.regs, pre.regs.c))),
        0xAA => (r == 1) && (post == with_regs(pre, xor_regs(pre.regs, pre.regs.d))),
        0xAB => (r == 1) && (post == with_regs(pre, xor_regs(pre.regs, pre.regs.e))),
        0xAC => (r == 1) && (post == with_regs(pre, xor_regs(pre.regs, pre.regs.h))),
        0xAD => (r == 1) && (post == with_regs(pre, xor_regs(pre.regs, pre.regs.l))),
        0xAE => (r == 2) && (post == with_regs(pre, xor_regs(pre.regs, at_hl(pre)))),
        0xAF => (r == 1) && (post == with_regs(pre, xor_regs(pre.regs, pre.regs.a))),
        0xB0 => (r == 1) && (post == with_regs(pre, or_regs(pre.regs, pre.regs.b))),
        0xB1 => (r == 1) && (post == with_regs(pre, or_regs(pre.regs, pre.regs.c))),
        0xB2 => (r == 1) && (post == with_regs(pre, or_regs(pre.regs, pre.regs.d))),
        0xB3 => (r == 1) && (post == with_regs(pre, or_regs(pre.regs, pre.regs.e))),
        0xB4 => (r == 1) && (post == with_regs(pre, or_regs(pre.regs, pre.regs.h))),
        0xB5 => (r == 1) && (post == with_regs(pre, or_regs(pre.regs, pre.regs.l))),
        0xB6 => (r == 2) && (post == with_regs(pre, or_regs(pre.regs, at_hl(pre)))),
        0xB7 => (r == 1) && (post == with_regs(pre, or_regs(pre.regs, pre.regs.a))),
        0xB8 => (r == 1) && (post == with_regs(pre, cp_regs(pre.regs, pre.regs.b))),
        0xB9 => (r == 1) && (post == with_regs(pre, cp_regs(pre.regs, pre.regs.c))),
        0xBA => (r == 1) && (post == with_regs(pre, cp_regs(pre.regs, pre.regs.d))),
        0xBB => (r == 1) && (post == with_regs(pre, cp_regs(pre.regs, pre.regs.e))),
        0xBC => (r == 1) && (post == with_regs(pre, cp_regs(pre.regs, pre.regs.h))),
        0xBD => (r == 1) && (post == with_regs(pre, cp_regs(pre.regs, pre.regs.l))),
        0xBE => (r == 2) && (post == with_regs(pre, cp_regs(pre.regs, at_hl(pre)))),
        0xBF => (r == 1) && (post == with_regs(pre, cp_regs(pre.regs, pre.regs.a))),
        0xC0 => (r == (if !has_flag(pre.regs.f, Z_FLAG) { 5u64 } else { 2u64 })) && (!has_flag(pre.regs.f, Z_FLAG) ==> post == with_regs(pre, Registers { pc: word_value(pre.mem, pre.regs.sp), sp: add2(pre.regs.sp), ..pre.regs })) && (!(!has_flag(pre.regs.f, Z_FLAG)) ==> post == pre),
        0xC1 => (r == 3) && (post == with_regs(pre, Registers { b: high(word_value(pre.mem, pre.regs.sp)), c: low(word_value(pre.mem, pre.regs.sp)), sp: add2(pre.regs.sp), ..pre.regs })),
        0xC2 => (r == (if !has_flag(pre.regs.f, Z_FLAG) { 4u64 } else { 3u64 })) && (post == with_regs(pre, Registers { pc: if !has_flag(pre.regs.f, Z_FLAG) { imm16(pre) } else { pc2(pre) }, ..pre.regs })),
        0xC3 => (r == 4) && (post == with_regs(pre, Registers { pc: imm16(pre), ..pre.regs })),
        0xC4 => (r == (if !has_flag(pre.regs.f, Z_FLAG) { 6u64 } else { 3u64 })) && (!has_flag(pre.regs.f, Z_FLAG) ==> post.regs == (Registers { pc: imm16(pre), sp: sub2(pre.regs.sp), ..pre.regs })) && (!has_flag(pre.regs.f, Z_FLAG) ==> word_written(pre.mem, sub2(pre.regs.sp), pc2(pre), post.mem)) && (!(!has_flag(pre.regs.f, Z_FLAG)) ==> post == with_regs(pre, Registers { pc: pc2(pre), ..pre.regs })) && (same_control(pre, post)),
        0xC5 => (r == 4) && (pushed(pre, pre.regs.spec_bc(), post)),
        0xC6 => (r == 2) && (post == with_regs(pre, add_regs(Registers { pc: pc1(pre), ..pre.regs }, imm8(pre), false))),
        0xC7 => (r == 4) && (post.regs == (Registers { pc: 0x0000, sp: sub2(pre.regs.sp), ..pre.regs })) && (word_written(pre.mem, sub2(pre.regs.sp), pre.regs.pc, post.mem)) && (same_control(pre, post)),
        0xC8 => (r == (if has_flag(pre.regs.f, Z_FLAG) { 5u64 } else { 2u64 })) && (has_flag(pre.regs.f, Z_FLAG) ==> post == with_regs(pre, Registers { pc: word_value(pre.mem, pre.regs.sp), sp: add2(pre.regs.sp), ..pre.regs })) && (!(has_flag(pre.regs.f, Z_FLAG)) ==> post == pre),
        0xC9 => (r == 4) && (post == with_regs(pre, Registers { pc: word_value(pre.mem, pre.regs.sp), sp: add2(pre.regs.sp), ..pre.regs })),
        0xCA => (r == (if has_flag(pre.regs.f, Z_FLAG) { 4u64 } else { 3u64 })) && (post == with_regs(pre, Registers { pc: if has_flag(pre.regs.f, Z_FLAG) { imm16(pre) } else { pc2(pre) }, ..pre.regs })),
        0xCB => cb_effect(imm8(pre), with_regs(pre, Registers { pc: pc1(pre), ..pre.regs }), post, r),
        0xCC => (r == (if has_flag(pre.regs.f, Z_FLAG) { 6u64 } else { 3u64 })) && (has_flag(pre.regs.f, Z_FLAG) ==> post.regs == (Registers { pc: imm16(pre), sp: sub2(pre.regs.sp), ..pre.regs })) && (has_flag(pre.regs.f, Z_FLAG) ==> word_written(pre.mem, sub2(pre.regs.sp), pc2(pre), post.mem)) && (!(has_flag(pre.regs.f, Z_FLAG)) ==> post == with_regs(pre, Registers { pc: pc2(pre), ..pre.regs })) && (same_control(pre, post)),
        0xCD => (r == 6) && (post.regs == (Registers { pc: imm16(pre), sp: sub2(pre.regs.sp), ..pre.regs })) && (word_written(pre.mem, sub2(pre.regs.sp), pc2(pre), post.mem)) && (same_control(pre, post)),
        0xCE => (r == 2) && (post == with_regs(pre, add_regs(Registers { pc: pc1(pre), ..pre.regs }, imm8(pre), true))),
        0xCF => (r == 4) && (post.regs == (Registers { pc: 0x0008, sp: sub2(pre.regs.sp), ..pre.regs })) && (word_written(pre.mem, sub2(pre.regs.sp), pre.regs.pc, post.mem)) && (same_control(pre, post)),
        0xD0 => (r == (if !has_flag(pre.regs.f, C_FLAG) { 5u64 } else { 2u64 })) && (!has_flag(pre.regs.f, C_FLAG) ==> post == with_regs(pre, Registers { pc: word_value(pre.mem, pre.regs.sp), sp: add2(pre.regs.sp), ..pre.regs })) && (!(!has_flag(pre.regs.f, C_FLAG)) ==> post == pre),
        0xD1 => (r == 3) && (post == with_regs(pre, Registers { d: high(word_value(pre.mem, pre.regs.sp)), e: low(word_value(pre.mem, pre.regs.sp)), sp: add2(pre.regs.sp), ..pre.regs })),
        0xD2 => (r == (if !has_flag(pre.regs.f, C_FLAG) { 4u64 } else { 3u64 })) && (post == with_regs(pre, Registers { pc: if !has_flag(pre.regs.f, C_FLAG) { imm16(pre) } else { pc2(pre) }, ..pre.regs })),
        0xD4 => (r == (if !has_flag(pre.regs.f, C_FLAG) { 6u64 } else { 3u64 })) && (!has_flag(pre.regs.f, C_FLAG) ==> post.regs == (Registers { pc: imm16(pre), sp: sub2(pre.regs.sp), ..pre.regs })) && (!has_flag(pre.regs.f, C_FLAG) ==> word_written(pre.mem, sub2(pre.regs.sp), pc2(pre), post.mem)) && (!(!has_flag(pre.regs.f, C_FLAG)) ==> post == with_regs(pre, Registers { pc: pc2(pre), ..pre.regs })) && (same_control(pre, post)),
        0xD5 => (r == 4) && (pushed(pre, pre.regs.spec_de(), post)),
        0xD6 => (r == 2) && (post == with_regs(pre, sub_regs(Registers { pc: pc1(pre), ..pre.regs }, imm8(pre), false))),
        0xD7 => (r == 4) && (post.regs == (Registers { pc: 0x0010, sp: sub2(pre.regs.sp), ..pre.regs })) && (word_written(pre.mem, sub2(pre.regs.sp), pre.regs.pc, post.mem)) && (same_control(pre, post)),
        0xD8 => (r == (if has_flag(pre.regs.f, C_FLAG) { 5u64 } else { 2u64 })) && (has_flag(pre.regs.f, C_FLAG) ==> post == with_regs(pre, Registers { pc: word_value(pre.mem, pre.regs.sp), sp: add2(pre.regs.sp), ..pre.regs })) && (!(has_flag(pre.regs.f, C_FLAG)) ==> post == pre),
        0xD9 => (r == 4) && (post == (Cpu { ime: true, ..with_regs(pre, Registers { pc: word_value(pre.mem, pre.regs.sp), sp: add2(pre.regs.sp), ..pre.regs }) })),
        0xDA => (r == (if has_flag(pre.regs.f, C_FLAG) { 4u64 } else { 3u64 })) && (post == with_regs(pre, Registers { pc: if has_flag(pre.regs.f, C_FLAG) { imm16(pre) } else { pc2(pre) }, ..pre.regs })),
        0xDC => (r == (if has_flag(pre.regs.f, C_FLAG) { 6u64 } else { 3u64 })) && (has_flag(pre.regs.f, C_FLAG) ==> post.regs == (Registers { pc: imm16(pre), sp: sub2(pre.regs.sp), ..pre.regs })) && (has_flag(pre.regs.f, C_FLAG) ==> word_written(pre.mem, sub2(pre.regs.sp), pc2(pre), post.mem)) && (!(has_flag(pre.regs.f, C_FLAG)) ==> post == with_regs(pre, Registers { pc: pc2(pre), ..pre.regs })) && (same_control(pre, post)),
        0xDE => (r == 2) && (post == with_regs(pre, sub_regs(Registers { pc: pc1(pre), ..pre.regs }, imm8(pre), true))),
        0xDF => (r == 4) && (post.regs == (Registers { pc: 0x0018, sp: sub2(pre.regs.sp), ..pre.regs })) && (word_written(pre.mem, sub2(pre.regs.sp), pre.regs.pc, post.mem)) && (same_control(pre, post)),
        0xE0 => (r == 3) && (post.regs == (Registers { pc: pc1(pre), ..pre.regs })) && (pre.mem.written((0xFF00 + imm8(pre)) as u16, pre.regs.a, post.mem)) && (same_control(pre, post)),
        0xE1 => (r == 3) && (post == with_regs(pre, Registers { h: high(word_value(pre.mem, pre.regs.sp)), l: low(word_value(pre.mem, pre.regs.sp)), sp: add2(pre.regs.sp), ..pre.regs })),
        0xE2 => (r == 2) && (post.regs == pre.regs) && (pre.mem.written((0xFF00 + pre.regs.c) as u16, pre.regs.a, post.mem)) && (same_control(pre, post)),
        0xE5 => (r == 4) && (pushed(pre, pre.regs.spec_hl(), post)),
        0xE6 => (r == 2) && (post == with_regs(pre, and_regs(Registers { pc: pc1(pre), ..pre.regs }, imm8(pre)))),
        0xE7 => (r == 4) && (post.regs == (Registers { pc: 0x0020, sp: sub2(pre.regs.sp), ..pre.regs })) && (word_written(pre.mem, sub2(pre.regs.sp), pre.regs.pc, post.mem)) && (same_control(pre, post)),
        0xE8 => (r == 4) && (post == with_regs(pre, Registers { sp: offset16(pre.regs.sp, imm8(pre)), f: add_sp_flags(pre.regs.sp, imm8(pre)), pc: pc1(pre), ..pre.regs })),
        0xE9 => (r == 1) && (post == with_regs(pre, Registers { pc: pre.regs.spec_hl(), ..pre.regs })),
        0xEA => (r == 4) && (post.regs == (Registers { pc: pc2(pre), ..pre.regs })) && (pre.mem.written(imm16(pre), pre.regs.a, post.mem)) && (same_control(pre, post)),
        0xEE => (r == 2) && (post == with_regs(pre, xor_regs(Registers { pc: pc1(pre), ..pre.regs }, imm8(pre)))),
        0xEF => (r == 4) && (post.regs == (Registers { pc: 0x0028, sp: sub2(pre.regs.sp), ..pre.regs })) && (word_written(pre.mem, sub2(pre.regs.sp), pre.regs.pc, post.mem)) && (same_control(pre, post)),
        0xF0 => (r == 3) && (post == with_regs(pre, Registers { a: pre.mem.read_value((0xFF00 + imm8(pre)) as u16), pc: pc1(pre), ..pre.regs })),
        0xF1 => (r == 3) && (post == with_regs(pre, Registers { a: high(word_value(pre.mem, pre.regs.sp)), f: (low(word_value(pre.mem, pre.regs.sp)) as nat / 16 * 16) as u8, sp: add2(pre.regs.sp), ..pre.regs })),
        0xF2 => (r == 2) && (post == with_regs(pre, Registers { a: pre.mem.read_value((0xFF00 + pre.regs.c) as u16), ..pre.regs })),
        0xF3 => (r == 1) && (post == (Cpu { ime: false, ..pre })),
        0xF5 => (r == 4) && (pushed(pre, pre.regs.spec_af(), post)),
        0xF6 => (r == 2) && (post == with_regs(pre, or_regs(Registers { pc: pc1(pre), ..pre.regs }, imm8(pre)))),
        0xF7 => (r == 4) && (post.regs == (Registers { pc: 0x0030, sp: sub2(pre.regs.sp), ..pre.regs })) && (word_written(pre.mem, sub2(pre.regs.sp), pre.regs.pc, post.mem)) && (same_control(pre, post)),
        0xF8 => (r == 3) && (post == with_regs(pre, Registers { h: high(offset16(pre.regs.sp, imm8(pre))), l: low(offset16(pre.regs.sp, imm8(pre))), f: add_sp_flags(pre.regs.sp, imm8(pre)), pc: pc1(pre), ..pre.regs })),
        0xF9 => (r == 2) && (post == with_regs(pre, Registers { sp: pre.regs.spec_hl(), ..pre.regs })),
        0xFA => (r == 4) && (post == with_regs(pre, Registers { a: pre.mem.read_value(imm16(pre)), pc: pc2(pre), ..pre.regs })),
        0xFB => (r == 1) && (post == (Cpu { ime: true, ..pre })),
        0xFE => (r == 2) && (post == with_regs(pre, cp_regs(Registers { pc: pc1(pre), ..pre.regs }, imm8(pre)))),
        0xFF => (r == 4) && (post.regs == (Registers { pc: 0x0038, sp: sub2(pre.regs.sp), ..pre.regs })) && (word_written(pre.mem, sub2(pre.regs.sp), pre.regs.pc, post.mem)) && (same_control(pre, post)),
        _ => r == 0 && post == (Cpu { halted: true, ..pre }),
    }
}

} // verus!
