//! The Sharp LR35902 processor: fetch, decode and execute, interrupt
//! dispatch and HALT handling.
use vstd::prelude::*;
use crate::irq::{line_mask, line_vector, lowest_line};
use crate::memory::{next_address, read_word, word_value, word_written, write_word, Memory};
use crate::mmu::MemoryManagementUnit;
use crate::registers::{flags_of, has_flag, high, low, Registers, C_FLAG, H_FLAG, N_FLAG, Z_FLAG};

mod cb_ops;
pub mod decode;
mod ops;

use self::decode::{cb_effect, primary_effect};

verus! {

/// The processor clock speed, in Hz.
pub const CPU_CLOCK_SPEED: u32 = 4194304;

/// A count of machine cycles (one machine cycle is four clock cycles).
pub type CycleType = u64;

/// The carry that an ADC or SBC takes in.
pub open spec fn carry_in(f: u8, use_carry: bool) -> nat {
    if use_carry && has_flag(f, C_FLAG) {
        1
    } else {
        0
    }
}

/// The registers after adding `v` (and the carry, for ADC) to A.
pub open spec fn add_regs(r: Registers, v: u8, use_carry: bool) -> Registers {
    let c = carry_in(r.f, use_carry);
    let sum = r.a as nat + v as nat + c;
    let res = (sum % 256) as u8;
    Registers {
        a: res,
        f: flags_of(res == 0, false, r.a as nat % 16 + v as nat % 16 + c > 15, sum > 255),
        ..r
    }
}

/// The registers after subtracting `v` (and the carry, for SBC) from A.
pub open spec fn sub_regs(r: Registers, v: u8, use_carry: bool) -> Registers {
    let c = carry_in(r.f, use_carry);
    let res = ((r.a as int - v as int - c as int + 512) % 256) as u8;
    Registers {
        a: res,
        f: flags_of(res == 0, true, (r.a as nat % 16) < v as nat % 16 + c, (r.a as nat) < v as nat + c),
        ..r
    }
}

/// The registers after A & v.
pub open spec fn and_regs(r: Registers, v: u8) -> Registers {
    Registers { a: r.a & v, f: flags_of(r.a & v == 0, false, true, false), ..r }
}

/// The registers after A | v.
pub open spec fn or_regs(r: Registers, v: u8) -> Registers {
    Registers { a: r.a | v, f: flags_of(r.a | v == 0, false, false, false), ..r }
}

/// The registers after A ^ v.
pub open spec fn xor_regs(r: Registers, v: u8) -> Registers {
    Registers { a: r.a ^ v, f: flags_of(r.a ^ v == 0, false, false, false), ..r }
}

/// The registers after comparing A with `v`: the flags of A - v, A kept.
pub open spec fn cp_regs(r: Registers, v: u8) -> Registers {
    Registers { f: sub_regs(r, v, false).f, ..r }
}

/// `v` plus one, wrapping.
pub open spec fn inc_value(v: u8) -> u8 {
    ((v as nat + 1) % 256) as u8
}

/// `v` minus one, wrapping.
pub open spec fn dec_value(v: u8) -> u8 {
    ((v as nat + 255) % 256) as u8
}

/// The flags after an 8-bit increment of `v`; C is kept from `f`.
pub open spec fn inc_flags(v: u8, f: u8) -> u8 {
    flags_of(inc_value(v) == 0, false, inc_value(v) as nat % 16 == 0, has_flag(f, C_FLAG))
}

/// The flags after an 8-bit decrement of `v`; C is kept from `f`.
pub open spec fn dec_flags(v: u8, f: u8) -> u8 {
    flags_of(dec_value(v) == 0, true, dec_value(v) as nat % 16 == 15, has_flag(f, C_FLAG))
}

/// A word plus one, wrapping.
pub open spec fn inc16(w: u16) -> u16 {
    ((w as nat + 1) % 0x10000) as u16
}

/// A word minus one, wrapping.
pub open spec fn dec16(w: u16) -> u16 {
    ((w as nat + 0xFFFF) % 0x10000) as u16
}

/// A word minus two, wrapping.
pub open spec fn sub2(w: u16) -> u16 {
    ((w as nat + 0xFFFE) % 0x10000) as u16
}

/// A word plus two, wrapping.
pub open spec fn add2(w: u16) -> u16 {
    ((w as nat + 2) % 0x10000) as u16
}

/// The registers after HL += v.
pub open spec fn add_hl_regs(r: Registers, v: u16) -> Registers {
    let hl = r.spec_hl();
    let sum = hl as nat + v as nat;
    let res = (sum % 0x10000) as u16;
    Registers {
        h: high(res),
        l: low(res),
        f: flags_of(has_flag(r.f, Z_FLAG), false, hl as nat % 4096 + v as nat % 4096 > 4095, sum > 0xFFFF),
        ..r
    }
}

/// The byte `n` read as a two's complement offset.
pub open spec fn signed_offset(n: u8) -> int {
    if n < 128 {
        n as int
    } else {
        n as int - 256
    }
}

/// `w` moved by the signed offset `n`, wrapping.
pub open spec fn offset16(w: u16, n: u8) -> u16 {
    ((w as int + signed_offset(n) + 0x10000) % 0x10000) as u16
}

/// The flags of SP plus a signed byte: from the unsigned addition of the low byte.
pub open spec fn add_sp_flags(sp: u16, n: u8) -> u8 {
    flags_of(false, false, sp as nat % 16 + n as nat % 16 > 15, sp as nat % 256 + n as nat > 255)
}

/// Rotate left, bit 7 into bit 0.
pub open spec fn rlc_value(v: u8) -> u8 {
    ((v as nat * 2) % 256 + v as nat / 128) as u8
}

/// Rotate left through the carry.
pub open spec fn rl_value(v: u8, f: u8) -> u8 {
    ((v as nat * 2) % 256 + if has_flag(f, C_FLAG) { 1nat } else { 0nat }) as u8
}

/// Rotate right, bit 0 into bit 7.
pub open spec fn rrc_value(v: u8) -> u8 {
    (v as nat / 2 + (v as nat % 2) * 128) as u8
}

/// Rotate right through the carry.
pub open spec fn rr_value(v: u8, f: u8) -> u8 {
    (v as nat / 2 + if has_flag(f, C_FLAG) { 128nat } else { 0nat }) as u8
}

/// Shift left arithmetic.
pub open spec fn sla_value(v: u8) -> u8 {
    ((v as nat * 2) % 256) as u8
}

/// Shift right arithmetic: bit 7 is kept.
pub open spec fn sra_value(v: u8) -> u8 {
    (v as nat / 2 + (v as nat / 128) * 128) as u8
}

/// Shift right logical.
pub open spec fn srl_value(v: u8) -> u8 {
    (v as nat / 2) as u8
}

/// Exchange the two nibbles.
pub open spec fn swap_value(v: u8) -> u8 {
    ((v as nat % 16) * 16 + v as nat / 16) as u8
}

/// Whether bit 7 is set: what a left rotation or shift moves out.
pub open spec fn out_left(v: u8) -> bool {
    v >= 128
}

/// Whether bit 0 is set: what a right rotation or shift moves out.
pub open spec fn out_right(v: u8) -> bool {
    v % 2 == 1
}

/// The flags after a prefixed rotation or shift with result `res`.
pub open spec fn shift_flags(res: u8, carry: bool) -> u8 {
    flags_of(res == 0, false, false, carry)
}

/// Whether bit `k` of `v` is set.
pub open spec fn test_bit(v: u8, k: u8) -> bool {
    (v >> k) & 1 == 1
}

/// The flags after testing bit `k` of `v`; C is kept from `f`.
pub open spec fn bit_flags(v: u8, k: u8, f: u8) -> u8 {
    flags_of(!test_bit(v, k), false, true, has_flag(f, C_FLAG))
}

/// `v` with bit `k` cleared.
pub open spec fn reset_bit(v: u8, k: u8) -> u8 {
    v & !(1u8 << k)
}

/// `v` with bit `k` set.
pub open spec fn set_bit(v: u8, k: u8) -> u8 {
    v | (1u8 << k)
}

/// The registers after the decimal adjustment of A.
pub open spec fn daa_regs(r: Registers) -> Registers {
    let n = has_flag(r.f, N_FLAG);
    let low_fix = has_flag(r.f, H_FLAG) || (!n && r.a as nat % 16 > 9);
    let high_fix = has_flag(r.f, C_FLAG) || (!n && r.a > 0x99);
    let adjust = (if low_fix { 0x06int } else { 0int }) + (if high_fix { 0x60int } else { 0int });
    let res = if !n {
        ((r.a as int + adjust) % 256) as u8
    } else {
        ((r.a as int - adjust + 256) % 256) as u8
    };
    Registers { a: res, f: flags_of(res == 0, n, false, high_fix), ..r }
}

/// Build a flag byte from the four flags.
pub fn make_flags(z: bool, n: bool, h: bool, c: bool) -> (r: u8)
    ensures
        r == flags_of(z, n, h, c),
{
    let mut f: u8 = 0;
    if z {
        f = f + 0x80;
    }
    if n {
        f = f + 0x40;
    }
    if h {
        f = f + 0x20;
    }
    if c {
        f = f + 0x10;
    }
    f
}

/// The processor state, holding the memory it operates on.
pub struct Cpu<M> {
    /// The machine cycles spent since the start of the emulation.
    pub cycles: CycleType,
    /// Is execution halted?
    pub halted: bool,
    /// The registers.
    pub regs: Registers,
    /// The memory the processor operates on.
    pub mem: M,
    /// Interrupt master enable switch.
    pub ime: bool,
    /// The interrupt flag register as it was when HALT was entered.
    pub if_reg_before_halt: u8,
}

/// The I/O registers the boot program leaves set, with their values.
pub open spec fn post_bios_io() -> Seq<(u16, u8)> {
    seq![
        (0xFF10u16, 0x80u8), (0xFF11u16, 0xBFu8), (0xFF12u16, 0xF3u8), (0xFF14u16, 0xBFu8),
        (0xFF16u16, 0x3Fu8), (0xFF19u16, 0xBFu8), (0xFF1Au16, 0x7Fu8), (0xFF1Bu16, 0xFFu8),
        (0xFF1Cu16, 0x9Fu8), (0xFF1Eu16, 0xBFu8), (0xFF20u16, 0xFFu8), (0xFF23u16, 0xBFu8),
        (0xFF24u16, 0x77u8), (0xFF25u16, 0xF3u8), (0xFF26u16, 0xF1u8), (0xFF40u16, 0x91u8),
        (0xFF47u16, 0xFCu8), (0xFF48u16, 0xFFu8), (0xFF49u16, 0xFFu8),
    ]
}

/// `post` is `m` after the writes of `writes`, in order: some sequence of
/// states leads from `m` to `post`, each step one of the writes.
pub open spec fn writes_applied<M: Memory>(m: M, writes: Seq<(u16, u8)>, post: M) -> bool {
    exists|states: Seq<M>|
        states.len() == writes.len() + 1 && states[0] == m && states.last() == post && forall|i: int|
            0 <= i < writes.len() ==> #[trigger] states[i].written(writes[i].0, writes[i].1, states[i + 1])
}

/// `b` differs from `a` at most in its registers and memory.
pub open spec fn same_control<M>(a: Cpu<M>, b: Cpu<M>) -> bool {
    a.cycles == b.cycles && a.halted == b.halted && a.ime == b.ime && a.if_reg_before_halt
        == b.if_reg_before_halt
}

/// The state `c` with the registers replaced by `r`.
pub open spec fn with_regs<M>(c: Cpu<M>, r: Registers) -> Cpu<M> {
    Cpu { regs: r, ..c }
}

/// The immediate byte at PC.
pub open spec fn imm8<M: Memory>(c: Cpu<M>) -> u8 {
    c.mem.read_value(c.regs.pc)
}

/// The immediate little-endian word at PC.
pub open spec fn imm16<M: Memory>(c: Cpu<M>) -> u16 {
    word_value(c.mem, c.regs.pc)
}

/// The byte at HL.
pub open spec fn at_hl<M: Memory>(c: Cpu<M>) -> u8 {
    c.mem.read_value(c.regs.spec_hl())
}

/// PC moved past one immediate byte.
pub open spec fn pc1<M>(c: Cpu<M>) -> u16 {
    next_address(c.regs.pc)
}

/// PC moved past an immediate word.
pub open spec fn pc2<M>(c: Cpu<M>) -> u16 {
    next_address(next_address(c.regs.pc))
}

/// `post` is `pre` after pushing `v`: SP lowered by two and the word stored there.
pub open spec fn pushed<M: Memory>(pre: Cpu<M>, v: u16, post: Cpu<M>) -> bool {
    &&& post.regs == Registers { sp: sub2(pre.regs.sp), ..pre.regs }
    &&& word_written(pre.mem, sub2(pre.regs.sp), v, post.mem)
    &&& same_control(pre, post)
}

/// `post` is `pre` after interrupt dispatch: when the master switch is on
/// and a line is both enabled and requested, the lowest such line has its
/// flag cleared, the switch is turned off, PC is pushed and PC jumps to the
/// line's vector; otherwise nothing changes.
pub open spec fn interrupt_serviced<M: Memory>(pre: Cpu<M>, post: Cpu<M>) -> bool {
    let pending = pre.mem.read_value(0xFFFF) & pre.mem.read_value(0xFF0F) & 0x1F;
    let i = lowest_line(pending);
    if pre.ime && i < 5 {
        exists|mid: M|
            #[trigger] pre.mem.written(0xFF0F, pre.mem.read_value(0xFF0F) & !line_mask(i), mid)
                && word_written(mid, sub2(pre.regs.sp), pre.regs.pc, post.mem) && post.regs == (
            Registers { pc: line_vector(i), sp: sub2(pre.regs.sp), ..pre.regs }) && !post.ime
                && post.cycles == pre.cycles && post.halted == pre.halted
                && post.if_reg_before_halt == pre.if_reg_before_halt
    } else {
        post == pre
    }
}

/// The cycle counter plus `k`, saturating.
pub open spec fn cycles_plus(c: CycleType, k: CycleType) -> CycleType {
    if c as int + k as int > u64::MAX {
        u64::MAX
    } else {
        (c + k) as CycleType
    }
}

/// The opcode that a fetch at PC reads.
pub open spec fn fetched_opcode<M: Memory + MemoryManagementUnit>(c: Cpu<M>) -> u8 {
    c.mem.after_fetch(c.regs.pc).read_value(c.regs.pc)
}

/// The state after the opcode fetch: the bus told of it, PC past it.
pub open spec fn after_opcode_fetch<M: Memory + MemoryManagementUnit>(c: Cpu<M>) -> Cpu<M> {
    Cpu { mem: c.mem.after_fetch(c.regs.pc), regs: Registers { pc: next_address(c.regs.pc), ..c.regs }, ..c }
}

/// `post` is `pre` after one step, which took `r` machine cycles.
///
/// Halted: one idle cycle; the processor wakes when IF differs from its
/// value at HALT. Otherwise: interrupt dispatch, the opcode fetch at PC
/// (which may end the boot program overlay), the instruction, then the
/// bus advanced by the instruction's cycles.
pub open spec fn stepped<M: Memory + MemoryManagementUnit>(pre: Cpu<M>, post: Cpu<M>, r: CycleType) -> bool {
    if pre.halted {
        &&& r == 1
        &&& post.halted == (pre.if_reg_before_halt == pre.mem.read_value(0xFF0F))
        &&& post.regs == pre.regs && post.ime == pre.ime
        &&& post.if_reg_before_halt == pre.if_reg_before_halt
        &&& post.cycles == cycles_plus(pre.cycles, 1)
        &&& pre.mem.stepped(1, post.mem)
    } else {
        exists|s1: Cpu<M>, s3: Cpu<M>|
            {
                &&& interrupt_serviced(pre, s1)
                &&& #[trigger] primary_effect(fetched_opcode(s1), after_opcode_fetch(s1), s3, r)
                &&& post.regs == s3.regs && post.halted == s3.halted && post.ime == s3.ime
                &&& post.if_reg_before_halt == s3.if_reg_before_halt
                &&& post.cycles == cycles_plus(pre.cycles, r)
                &&& s3.mem.stepped(r, post.mem)
            }
    }
}

impl<M: Memory + MemoryManagementUnit> Cpu<M> {
    /// A processor with zeroed registers, operating on `mem`.
    pub fn new(mem: M) -> (r: Cpu<M>)
        ensures
            r.cycles == 0,
            !r.halted,
            r.regs == (Registers { a: 0, f: 0, b: 0, c: 0, d: 0, e: 0, h: 0, l: 0, pc: 0, sp: 0 }),
            r.mem == mem,
            r.ime,
            r.if_reg_before_halt == 0,
    {
        Cpu {
            cycles: 0,
            halted: false,
            regs: Registers::new(),
            mem,
            ime: true,
            if_reg_before_halt: 0,
        }
    }

    /// The state the boot program leaves the registers in.
    pub fn post_bios(&mut self)
        ensures
            final(self).regs == (Registers {
                a: 0x01,
                f: 0xB0,
                b: 0x00,
                c: 0x13,
                d: 0x00,
                e: 0xD8,
                h: 0x01,
                l: 0x4D,
                pc: 0x0100,
                sp: 0xFFFE,
            }),
            same_control(*old(self), *final(self)),
            writes_applied(old(self).mem, post_bios_io(), final(self).mem),
    {
        self.regs.set_af(0x01B0);
        self.regs.set_bc(0x0013);
        self.regs.set_de(0x00D8);
        self.regs.set_hl(0x014D);
        self.regs.pc = 0x100;
        self.regs.sp = 0xFFFE;
        let table: Vec<(u16, u8)> = vec![
            (0xFF10, 0x80), (0xFF11, 0xBF), (0xFF12, 0xF3), (0xFF14, 0xBF), (0xFF16, 0x3F),
            (0xFF19, 0xBF), (0xFF1A, 0x7F), (0xFF1B, 0xFF), (0xFF1C, 0x9F), (0xFF1E, 0xBF),
            (0xFF20, 0xFF), (0xFF23, 0xBF), (0xFF24, 0x77), (0xFF25, 0xF3), (0xFF26, 0xF1),
            (0xFF40, 0x91), (0xFF47, 0xFC), (0xFF48, 0xFF), (0xFF49, 0xFF),
        ];
        proof {
            assert(table@ =~= post_bios_io());
        }
        let ghost m0 = self.mem;
        let ghost mut states: Seq<M> = seq![m0];
        let mut i: usize = 0;
        while i < table.len()
            invariant
                i <= table@.len(),
                table@ == post_bios_io(),
                states.len() == i + 1,
                states[0] == m0,
                states[i as int] == self.mem,
                forall|j: int|
                    0 <= j < i ==> #[trigger] states[j].written(table@[j].0, table@[j].1, states[j + 1]),
                self.regs == (Registers {
                    a: 0x01,
                    f: 0xB0,
                    b: 0x00,
                    c: 0x13,
                    d: 0x00,
                    e: 0xD8,
                    h: 0x01,
                    l: 0x4D,
                    pc: 0x0100,
                    sp: 0xFFFE,
                }),
                same_control(*old(self), *self),
            decreases table@.len() - i,
        {
            let (address, value) = table[i];
            self.mem.write_byte(address, value);
            proof {
                states = states.push(self.mem);
            }
            i = i + 1;
        }
        proof {
            assert(states.last() == self.mem);
        }
    }

    /// The registers.
    pub fn registers(&self) -> (r: &Registers)
        ensures
            *r == self.regs,
    {
        &self.regs
    }

    /// The machine cycles spent since the start.
    pub fn cycles(&self) -> (r: CycleType)
        ensures
            r == self.cycles,
    {
        self.cycles
    }

    /// Read the byte at PC and move PC past it.
    fn fetch_byte(&mut self) -> (r: u8)
        ensures
            r == imm8(*old(self)),
            *final(self) == with_regs(*old(self), Registers { pc: pc1(*old(self)), ..old(self).regs }),
    {
        let b = self.mem.read_byte(self.regs.pc);
        self.regs.pc = self.regs.pc.wrapping_add(1);
        b
    }

    /// Read the word at PC and move PC past it.
    fn fetch_word(&mut self) -> (r: u16)
        ensures
            r == imm16(*old(self)),
            *final(self) == with_regs(*old(self), Registers { pc: pc2(*old(self)), ..old(self).regs }),
    {
        let w = read_word(&mut self.mem, self.regs.pc);
        self.regs.pc = self.regs.pc.wrapping_add(1).wrapping_add(1);
        w
    }

    /// Advance by one instruction (or one idle cycle while halted) and
    /// return the machine cycles spent. The bus is advanced by the same count.
    pub fn step(&mut self) -> (r: CycleType)
        ensures
            stepped(*old(self), *final(self), r),
            final(self).cycles >= old(self).cycles,
            old(self).cycles <= u64::MAX - 6 ==> final(self).cycles == old(self).cycles + r,
            r <= 6,
    {
        if self.halted {
            // leave HALT as soon as a new interrupt was requested
            let if_reg = self.mem.interrupt_flag();
            if self.if_reg_before_halt != if_reg {
                self.halted = false;
            }
            self.cycles = self.cycles.saturating_add(1);
            self.mem.step(1);
            return 1;
        }
        let ghost pre = *self;
        let mut step_cycles = self.handle_interrupt();
        let ghost s1 = *self;
        let pc = self.regs.pc;
        self.mem.fetch_at(pc);
        let opcode = self.fetch_byte();
        let ghost s2 = *self;
        step_cycles = step_cycles + self.execute(opcode);
        let ghost s3 = *self;
        self.cycles = self.cycles.saturating_add(step_cycles);
        self.mem.step(step_cycles);
        proof {
            assert(s2 == after_opcode_fetch(s1));
            assert(primary_effect(fetched_opcode(s1), after_opcode_fetch(s1), s3, step_cycles));
        }
        step_cycles
    }

    /// Service the highest-priority pending interrupt, if the master switch
    /// allows it: clear its flag and the switch, push PC and jump to its
    /// vector. At most one interrupt is serviced per call.
    pub fn handle_interrupt(&mut self) -> (r: CycleType)
        ensures
            r == 0,
            interrupt_serviced(*old(self), *final(self)),
    {
        if !self.ime {
            return 0;
        }
        let ie_reg = self.mem.interrupt_enable();
        let if_reg = self.mem.interrupt_flag();
        let pending = ie_reg & if_reg & 0x1F;
        let ghost i = lowest_line(pending);
        let (mask, vector): (u8, u16) = if pending & 0x01 != 0 {
            (0x01, 0x40)
        } else if pending & 0x02 != 0 {
            (0x02, 0x48)
        } else if pending & 0x04 != 0 {
            (0x04, 0x50)
        } else if pending & 0x08 != 0 {
            (0x08, 0x58)
        } else if pending & 0x10 != 0 {
            (0x10, 0x60)
        } else {
            return 0;
        };
        assert(mask == line_mask(i) && vector == line_vector(i));
        let ghost pre = *self;
        self.mem.set_interrupt_flag(if_reg & !mask);
        let ghost mid = self.mem;
        self.ime = false;
        self.cpu_call(vector);
        assert(pre.mem.written(0xFF0F, pre.mem.read_value(0xFF0F) & !line_mask(i), mid));
        0
    }

    /// Decode and execute a primary opcode, returning its machine cycles.
    pub fn execute(&mut self, opcode: u8) -> (r: CycleType)
        ensures
            primary_effect(opcode, *old(self), *final(self), r),
            final(self).cycles == old(self).cycles,
            r <= 6,
    {
        match opcode {
            0x00 => self.NOP(),
            0x01 => self.LD_BC_nn(),
            0x02 => self.LD_BCm_A(),
            0x03 => self.INC_BC(),
            0x04 => self.INC_r_b(),
            0x05 => self.DEC_r_b(),
            0x06 => self.LD_r_n_b(),
            0x07 => self.RLC(),
            0x08 => self.LD_NNm_SP(),
            0x09 => self.ADD_HL_BC(),
            0x0A => self.LD_A_BCm(),
            0x0B => self.DEC_BC(),
            0x0C => self.INC_r_c(),
            0x0D => self.DEC_r_c(),
            0x0E => self.LD_r_n_c(),
            0x0F => self.RRC(),
            0x10 => self.STOP(),
            0x11 => self.LD_DE_nn(),
            0x12 => self.LD_DEm_A(),
            0x13 => self.INC_DE(),
            0x14 => self.INC_r_d(),
            0x15 => self.DEC_r_d(),
            0x16 => self.LD_r_n_d(),
            0x17 => self.RL(),
            0x18 => self.JR_n(),
            0x19 => self.ADD_HL_DE(),
            0x1A => self.LD_A_DEm(),
            0x1B => self.DEC_DE(),
            0x1C => self.INC_r_e(),
            0x1D => self.DEC_r_e(),
            0x1E => self.LD_r_n_e(),
            0x1F => self.RR(),
            0x20 => self.JR_NZ_n(),
            0x21 => self.LD_HL_nn(),
            0x22 => self.LDI_HLm_A(),
            0x23 => self.INC_HL(),
            0x24 => self.INC_r_h(),
            0x25 => self.DEC_r_h(),
            0x26 => self.LD_r_n_h(),
            0x27 => self.DAA(),
            0x28 => self.JR_Z_n(),
            0x29 => self.ADD_HL_HL(),
            0x2A => self.LDI_A_HLm(),
            0x2B => self.DEC_HL(),
            0x2C => self.INC_r_l(),
            0x2D => self.DEC_r_l(),
            0x2E => self.LD_r_n_l(),
            0x2F => self.CPL(),
            0x30 => self.JR_NC_n(),
            0x31 => self.LD_SP_nn(),
            0x32 => self.LDD_HLm_A(),
            0x33 => self.INC_SP(),
            0x34 => self.INC_HLm(),
            0x35 => self.DEC_HLm(),
            0x36 => self.LD_HLm_n(),
            0x37 => self.SCF(),
            0x38 => self.JR_C_n(),
            0x39 => self.ADD_HL_SP(),
            0x3A => self.LDD_A_HLm(),
            0x3B => self.DEC_SP(),
            0x3C => self.INC_r_a(),
            0x3D => self.DEC_r_a(),
            0x3E => self.LD_r_n_a(),
            0x3F => self.CCF(),
            0x40 => self.LD_rr_bb(),
            0x41 => self.LD_rr_bc(),
            0x42 => self.LD_rr_bd(),
            0x43 => self.LD_rr_be(),
            0x44 => self.LD_rr_bh(),
            0x45 => self.LD_rr_bl(),
            0x46 => self.LD_r_HLm_b(),
            0x47 => self.LD_rr_ba(),
            0x48 => self.LD_rr_cb(),
            0x49 => self.LD_rr_cc(),
            0x4A => self.LD_rr_cd(),
            0x4B => self.LD_rr_ce(),
            0x4C => self.LD_rr_ch(),
            0x4D => self.LD_rr_cl(),
            0x4E => self.LD_r_HLm_c(),
            0x4F => self.LD_rr_ca(),
            0x50 => self.LD_rr_db(),
            0x51 => self.LD_rr_dc(),
            0x52 => self.LD_rr_dd(),
            0x53 => self.LD_rr_de(),
            0x54 => self.LD_rr_dh(),
            0x55 => self.LD_rr_dl(),
            0x56 => self.LD_r_HLm_d(),
            0x57 => self.LD_rr_da(),
            0x58 => self.LD_rr_eb(),
            0x59 => self.LD_rr_ec(),
            0x5A => self.LD_rr_ed(),
            0x5B => self.LD_rr_ee(),
            0x5C => self.LD_rr_eh(),
            0x5D => self.LD_rr_el(),
            0x5E => self.LD_r_HLm_e(),
            0x5F => self.LD_rr_ea(),
            0x60 => self.LD_rr_hb(),
            0x61 => self.LD_rr_hc(),
            0x62 => self.LD_rr_hd(),
            0x63 => self.LD_rr_he(),
            0x64 => self.LD_rr_hh(),
            0x65 => self.LD_rr_hl(),
            0x66 => self.LD_r_HLm_h(),
            0x67 => self.LD_rr_ha(),
            0x68 => self.LD_rr_lb(),
            0x69 => self.LD_rr_lc(),
            0x6A => self.LD_rr_ld(),
            0x6B => self.LD_rr_le(),
            0x6C => self.LD_rr_lh(),
            0x6D => self.LD_rr_ll(),
            0x6E => self.LD_r_HLm_l(),
            0x6F => self.LD_rr_la(),
            0x70 => self.LD_HLm_r_b(),
            0x71 => self.LD_HLm_r_c(),
            0x72 => self.LD_HLm_r_d(),
            0x73 => self.LD_HLm_r_e(),
            0x74 => self.LD_HLm_r_h(),
            0x75 => self.LD_HLm_r_l(),
            0x76 => self.HALT(),
            0x77 => self.LD_HLm_r_a(),
            0x78 => self.LD_rr_ab(),
            0x79 => self.LD_rr_ac(),
            0x7A => self.LD_rr_ad(),
            0x7B => self.LD_rr_ae(),
            0x7C => self.LD_rr_ah(),
            0x7D => self.LD_rr_al(),
            0x7E => self.LD_r_HLm_a(),
            0x7F => self.LD_rr_aa(),
            0x80 => self.ADD_r_b(),
            0x81 => self.ADD_r_c(),
            0x82 => self.ADD_r_d(),
            0x83 => self.ADD_r_e(),
            0x84 => self.ADD_r_h(),
            0x85 => self.ADD_r_l(),
            0x86 => self.ADD_HLm(),
            0x87 => self.ADD_r_a(),
            0x88 => self.ADC_r_b(),
            0x89 => self.ADC_r_c(),
            0x8A => self.ADC_r_d(),
            0x8B => self.ADC_r_e(),
            0x8C => self.ADC_r_h(),
            0x8D => self.ADC_r_l(),
            0x8E => self.ADC_HLm(),
            0x8F => self.ADC_r_a(),
            0x90 => self.SUB_r_b(),
            0x91 => self.SUB_r_c(),
            0x92 => self.SUB_r_d(),
            0x93 => self.SUB_r_e(),
            0x94 => self.SUB_r_h(),
            0x95 => self.SUB_r_l(),
            0x96 => self.SUB_HLm(),
            0x97 => self.SUB_r_a(),
            0x98 => self.SBC_r_b(),
            0x99 => self.SBC_r_c(),
            0x9A => self.SBC_r_d(),
            0x9B => self.SBC_r_e(),
            0x9C => self.SBC_r_h(),
            0x9D => self.SBC_r_l(),
            0x9E => self.SBC_HLm(),
            0x9F => self.SBC_r_a(),
            0xA0 => self.AND_r_b(),
            0xA1 => self.AND_r_c(),
            0xA2 => self.AND_r_d(),
            0xA3 => self.AND_r_e(),
            0xA4 => self.AND_r_h(),
            0xA5 => self.AND_r_l(),
            0xA6 => self.AND_HLm(),
            0xA7 => self.AND_r_a(),
            0xA8 => self.XOR_r_b(),
            0xA9 => self.XOR_r_c(),
            0xAA => self.XOR_r_d(),
            0xAB => self.XOR_r_e(),
            0xAC => self.XOR_r_h(),
            0xAD => self.XOR_r_l(),
            0xAE => self.XOR_HLm(),
            0xAF => self.XOR_r_a(),
            0xB0 => self.OR_r_b(),
            0xB1 => self.OR_r_c(),
            0xB2 => self.OR_r_d(),
            0xB3 => self.OR_r_e(),
            0xB4 => self.OR_r_h(),
            0xB5 => self.OR_r_l(),
            0xB6 => self.OR_HLm(),
            0xB7 => self.OR_r_a(),
            0xB8 => self.CP_r_b(),
            0xB9 => self.CP_r_c(),
            0xBA => self.CP_r_d(),
            0xBB => self.CP_r_e(),
            0xBC => self.CP_r_h(),
            0xBD => self.CP_r_l(),
            0xBE => self.CP_HLm(),
            0xBF => self.CP_r_a(),
            0xC0 => self.RET_NZ(),
            0xC1 => self.POP_BC(),
            0xC2 => self.JP_NZ_nn(),
            0xC3 => self.JP_nn(),
            0xC4 => self.CALL_NZ_nn(),
            0xC5 => self.PUSH_BC(),
            0xC6 => self.ADD_n(),
            0xC7 => self.RST_00H(),
            0xC8 => self.RET_Z(),
            0xC9 => self.RET(),
            0xCA => self.JP_Z_nn(),
            0xCB => self.call_cb(),
            0xCC => self.CALL_Z_nn(),
            0xCD => self.CALL_nn(),
            0xCE => self.ADC_n(),
            0xCF => self.RST_08H(),
            0xD0 => self.RET_NC(),
            0xD1 => self.POP_DE(),
            0xD2 => self.JP_NC_nn(),
            0xD3 => self.opcode_unknown(),
            0xD4 => self.CALL_NC_nn(),
            0xD5 => self.PUSH_DE(),
            0xD6 => self.SUB_n(),
            0xD7 => self.RST_10H(),
            0xD8 => self.RET_C(),
            0xD9 => self.RETI(),
            0xDA => self.JP_C_nn(),
            0xDB => self.opcode_unknown(),
            0xDC => self.CALL_C_nn(),
            0xDD => self.opcode_unknown(),
            0xDE => self.SBC_n(),
            0xDF => self.RST_18H(),
            0xE0 => self.LDH_n_A(),
            0xE1 => self.POP_HL(),
            0xE2 => self.LDH_C_A(),
            0xE3 => self.opcode_unknown(),
            0xE4 => self.opcode_unknown(),
            0xE5 => self.PUSH_HL(),
            0xE6 => self.AND_n(),
            0xE7 => self.RST_20H(),
            0xE8 => self.ADD_SP_n(),
            0xE9 => self.JP_HLm(),
            0xEA => self.LD_NNm_A(),
            0xEB => self.opcode_unknown(),
            0xEC => self.opcode_unknown(),
            0xED => self.opcode_unknown(),
            0xEE => self.XOR_n(),
            0xEF => self.RST_28H(),
            0xF0 => self.LDH_A_n(),
            0xF1 => self.POP_AF(),
            0xF2 => self.LDH_A_C(),
            0xF3 => self.DI(),
            0xF4 => self.opcode_unknown(),
            0xF5 => self.PUSH_AF(),
            0xF6 => self.OR_n(),
            0xF7 => self.RST_30H(),
            0xF8 => self.LDHL_SP_n(),
            0xF9 => self.LD_SP_HL(),
            0xFA => self.LD_A_NNm(),
            0xFB => self.EI(),
            0xFC => self.opcode_unknown(),
            0xFD => self.opcode_unknown(),
            0xFE => self.CP_n(),
            0xFF => self.RST_38H(),
        }
    }

    /// Decode and execute a prefixed opcode, returning its machine cycles.
    pub fn execute_cb(&mut self, opcode: u8) -> (r: CycleType)
        ensures
            cb_effect(opcode, *old(self), *final(self), r),
            final(self).cycles == old(self).cycles,
            r <= 4,
    {
        match opcode {
            0x00 => self.RLC_r_b(),
            0x01 => self.RLC_r_c(),
            0x02 => self.RLC_r_d(),
            0x03 => self.RLC_r_e(),
            0x04 => self.RLC_r_h(),
            0x05 => self.RLC_r_l(),
            0x06 => self.RLC_HLm(),
            0x07 => self.RLC_r_a(),
            0x08 => self.RRC_r_b(),
            0x09 => self.RRC_r_c(),
            0x0A => self.RRC_r_d(),
            0x0B => self.RRC_r_e(),
            0x0C => self.RRC_r_h(),
            0x0D => self.RRC_r_l(),
            0x0E => self.RRC_HLm(),
            0x0F => self.RRC_r_a(),
            0x10 => self.RL_r_b(),
            0x11 => self.RL_r_c(),
            0x12 => self.RL_r_d(),
            0x13 => self.RL_r_e(),
            0x14 => self.RL_r_h(),
            0x15 => self.RL_r_l(),
            0x16 => self.RL_HLm(),
            0x17 => self.RL_r_a(),
            0x18 => self.RR_r_b(),
            0x19 => self.RR_r_c(),
            0x1A => self.RR_r_d(),
            0x1B => self.RR_r_e(),
            0x1C => self.RR_r_h(),
            0x1D => self.RR_r_l(),
            0x1E => self.RR_HLm(),
            0x1F => self.RR_r_a(),
            0x20 => self.SLA_r_b(),
            0x21 => self.SLA_r_c(),
            0x22 => self.SLA_r_d(),
            0x23 => self.SLA_r_e(),
            0x24 => self.SLA_r_h(),
            0x25 => self.SLA_r_l(),
            0x26 => self.SLA_HLm(),
            0x27 => self.SLA_r_a(),
            0x28 => self.SRA_r_b(),
            0x29 => self.SRA_r_c(),
            0x2A => self.SRA_r_d(),
            0x2B => self.SRA_r_e(),
            0x2C => self.SRA_r_h(),
            0x2D => self.SRA_r_l(),
            0x2E => self.SRA_HLm(),
            0x2F => self.SRA_r_a(),
            0x30 => self.SWAP_r_b(),
            0x31 => self.SWAP_r_c(),
            0x32 => self.SWAP_r_d(),
            0x33 => self.SWAP_r_e(),
            0x34 => self.SWAP_r_h(),
            0x35 => self.SWAP_r_l(),
            0x36 => self.SWAP_HLm(),
            0x37 => self.SWAP_r_a(),
            0x38 => self.SRL_r_b(),
            0x39 => self.SRL_r_c(),
            0x3A => self.SRL_r_d(),
            0x3B => self.SRL_r_e(),
            0x3C => self.SRL_r_h(),
            0x3D => self.SRL_r_l(),
            0x3E => self.SRL_HLm(),
            0x3F => self.SRL_r_a(),
            0x40 => self.BIT_0_r_b(),
            0x41 => self.BIT_0_r_c(),
            0x42 => self.BIT_0_r_d(),
            0x43 => self.BIT_0_r_e(),
            0x44 => self.BIT_0_r_h(),
            0x45 => self.BIT_0_r_l(),
            0x46 => self.BIT_0_HLm(),
            0x47 => self.BIT_0_r_a(),
            0x48 => self.BIT_1_r_b(),
            0x49 => self.BIT_1_r_c(),
            0x4A => self.BIT_1_r_d(),
            0x4B => self.BIT_1_r_e(),
            0x4C => self.BIT_1_r_h(),
            0x4D => self.BIT_1_r_l(),
            0x4E => self.BIT_1_HLm(),
            0x4F => self.BIT_1_r_a(),
            0x50 => self.BIT_2_r_b(),
            0x51 => self.BIT_2_r_c(),
            0x52 => self.BIT_2_r_d(),
            0x53 => self.BIT_2_r_e(),
            0x54 => self.BIT_2_r_h(),
            0x55 => self.BIT_2_r_l(),
            0x56 => self.BIT_2_HLm(),
            0x57 => self.BIT_2_r_a(),
            0x58 => self.BIT_3_r_b(),
            0x59 => self.BIT_3_r_c(),
            0x5A => self.BIT_3_r_d(),
            0x5B => self.BIT_3_r_e(),
            0x5C => self.BIT_3_r_h(),
            0x5D => self.BIT_3_r_l(),
            0x5E => self.BIT_3_HLm(),
            0x5F => self.BIT_3_r_a(),
            0x60 => self.BIT_4_r_b(),
            0x61 => self.BIT_4_r_c(),
            0x62 => self.BIT_4_r_d(),
            0x63 => self.BIT_4_r_e(),
            0x64 => self.BIT_4_r_h(),
            0x65 => self.BIT_4_r_l(),
            0x66 => self.BIT_4_HLm(),
            0x67 => self.BIT_4_r_a(),
            0x68 => self.BIT_5_r_b(),
            0x69 => self.BIT_5_r_c(),
            0x6A => self.BIT_5_r_d(),
            0x6B => self.BIT_5_r_e(),
            0x6C => self.BIT_5_r_h(),
            0x6D => self.BIT_5_r_l(),
            0x6E => self.BIT_5_HLm(),
            0x6F => self.BIT_5_r_a(),
            0x70 => self.BIT_6_r_b(),
            0x71 => self.BIT_6_r_c(),
            0x72 => self.BIT_6_r_d(),
            0x73 => self.BIT_6_r_e(),
            0x74 => self.BIT_6_r_h(),
            0x75 => self.BIT_6_r_l(),
            0x76 => self.BIT_6_HLm(),
            0x77 => self.BIT_6_r_a(),
            0x78 => self.BIT_7_r_b(),
            0x79 => self.BIT_7_r_c(),
            0x7A => self.BIT_7_r_d(),
            0x7B => self.BIT_7_r_e(),
            0x7C => self.BIT_7_r_h(),
            0x7D => self.BIT_7_r_l(),
            0x7E => self.BIT_7_HLm(),
            0x7F => self.BIT_7_r_a(),
            0x80 => self.RES_0_r_b(),
            0x81 => self.RES_0_r_c(),
            0x82 => self.RES_0_r_d(),
            0x83 => self.RES_0_r_e(),
            0x84 => self.RES_0_r_h(),
            0x85 => self.RES_0_r_l(),
            0x86 => self.RES_0_HLm(),
            0x87 => self.RES_0_r_a(),
            0x88 => self.RES_1_r_b(),
            0x89 => self.RES_1_r_c(),
            0x8A => self.RES_1_r_d(),
            0x8B => self.RES_1_r_e(),
            0x8C => self.RES_1_r_h(),
            0x8D => self.RES_1_r_l(),
            0x8E => self.RES_1_HLm(),
            0x8F => self.RES_1_r_a(),
            0x90 => self.RES_2_r_b(),
            0x91 => self.RES_2_r_c(),
            0x92 => self.RES_2_r_d(),
            0x93 => self.RES_2_r_e(),
            0x94 => self.RES_2_r_h(),
            0x95 => self.RES_2_r_l(),
            0x96 => self.RES_2_HLm(),
            0x97 => self.RES_2_r_a(),
            0x98 => self.RES_3_r_b(),
            0x99 => self.RES_3_r_c(),
            0x9A => self.RES_3_r_d(),
            0x9B => self.RES_3_r_e(),
            0x9C => self.RES_3_r_h(),
            0x9D => self.RES_3_r_l(),
            0x9E => self.RES_3_HLm(),
            0x9F => self.RES_3_r_a(),
            0xA0 => self.RES_4_r_b(),
            0xA1 => self.RES_4_r_c(),
            0xA2 => self.RES_4_r_d(),
            0xA3 => self.RES_4_r_e(),
            0xA4 => self.RES_4_r_h(),
            0xA5 => self.RES_4_r_l(),
            0xA6 => self.RES_4_HLm(),
            0xA7 => self.RES_4_r_a(),
            0xA8 => self.RES_5_r_b(),
            0xA9 => self.RES_5_r_c(),
            0xAA => self.RES_5_r_d(),
            0xAB => self.RES_5_r_e(),
            0xAC => self.RES_5_r_h(),
            0xAD => self.RES_5_r_l(),
            0xAE => self.RES_5_HLm(),
            0xAF => self.RES_5_r_a(),
            0xB0 => self.RES_6_r_b(),
            0xB1 => self.RES_6_r_c(),
            0xB2 => self.RES_6_r_d(),
            0xB3 => self.RES_6_r_e(),
            0xB4 => self.RES_6_r_h(),
            0xB5 => self.RES_6_r_l(),
            0xB6 => self.RES_6_HLm(),
            0xB7 => self.RES_6_r_a(),
            0xB8 => self.RES_7_r_b(),
            0xB9 => self.RES_7_r_c(),
            0xBA => self.RES_7_r_d(),
            0xBB => self.RES_7_r_e(),
            0xBC => self.RES_7_r_h(),
            0xBD => self.RES_7_r_l(),
            0xBE => self.RES_7_HLm(),
            0xBF => self.RES_7_r_a(),
            0xC0 => self.SET_0_r_b(),
            0xC1 => self.SET_0_r_c(),
            0xC2 => self.SET_0_r_d(),
            0xC3 => self.SET_0_r_e(),
            0xC4 => self.SET_0_r_h(),
            0xC5 => self.SET_0_r_l(),
            0xC6 => self.SET_0_HLm(),
            0xC7 => self.SET_0_r_a(),
            0xC8 => self.SET_1_r_b(),
            0xC9 => self.SET_1_r_c(),
            0xCA => self.SET_1_r_d(),
            0xCB => self.SET_1_r_e(),
            0xCC => self.SET_1_r_h(),
            0xCD => self.SET_1_r_l(),
            0xCE => self.SET_1_HLm(),
            0xCF => self.SET_1_r_a(),
            0xD0 => self.SET_2_r_b(),
            0xD1 => self.SET_2_r_c(),
            0xD2 => self.SET_2_r_d(),
            0xD3 => self.SET_2_r_e(),
            0xD4 => self.SET_2_r_h(),
            0xD5 => self.SET_2_r_l(),
            0xD6 => self.SET_2_HLm(),
            0xD7 => self.SET_2_r_a(),
            0xD8 => self.SET_3_r_b(),
            0xD9 => self.SET_3_r_c(),
            0xDA => self.SET_3_r_d(),
            0xDB => self.SET_3_r_e(),
            0xDC => self.SET_3_r_h(),
            0xDD => self.SET_3_r_l(),
            0xDE => self.SET_3_HLm(),
            0xDF => self.SET_3_r_a(),
            0xE0 => self.SET_4_r_b(),
            0xE1 => self.SET_4_r_c(),
            0xE2 => self.SET_4_r_d(),
            0xE3 => self.SET_4_r_e(),
            0xE4 => self.SET_4_r_h(),
            0xE5 => self.SET_4_r_l(),
            0xE6 => self.SET_4_HLm(),
            0xE7 => self.SET_4_r_a(),
            0xE8 => self.SET_5_r_b(),
            0xE9 => self.SET_5_r_c(),
            0xEA => self.SET_5_r_d(),
            0xEB => self.SET_5_r_e(),
            0xEC => self.SET_5_r_h(),
            0xED => self.SET_5_r_l(),
            0xEE => self.SET_5_HLm(),
            0xEF => self.SET_5_r_a(),
            0xF0 => self.SET_6_r_b(),
            0xF1 => self.SET_6_r_c(),
            0xF2 => self.SET_6_r_d(),
            0xF3 => self.SET_6_r_e(),
            0xF4 => self.SET_6_r_h(),
            0xF5 => self.SET_6_r_l(),
            0xF6 => self.SET_6_HLm(),
            0xF7 => self.SET_6_r_a(),
            0xF8 => self.SET_7_r_b(),
            0xF9 => self.SET_7_r_c(),
            0xFA => self.SET_7_r_d(),
            0xFB => self.SET_7_r_e(),
            0xFC => self.SET_7_r_h(),
            0xFD => self.SET_7_r_l(),
            0xFE => self.SET_7_HLm(),
            0xFF => self.SET_7_r_a(),
        }
    }

    /// Fetch the byte that follows the 0xCB prefix and execute it.
    pub fn call_cb(&mut self) -> (r: CycleType)
        ensures
            cb_effect(imm8(*old(self)), with_regs(*old(self), Registers { pc: pc1(*old(self)), ..old(self).regs }), *final(self), r),
            final(self).cycles == old(self).cycles,
            r <= 4,
    {
        let opcode = self.fetch_byte();
        self.execute_cb(opcode)
    }

    /// An opcode without an instruction: the processor halts.
    pub fn opcode_unknown(&mut self) -> (r: CycleType)
        ensures
            r == 0,
            *final(self) == (Cpu { halted: true, ..*old(self) }),
    {
        self.halted = true;
        0
    }

    /// A prefixed opcode without an instruction: the processor halts.
    pub fn cb_opcode_unknown(&mut self) -> (r: CycleType)
        ensures
            r == 0,
            *final(self) == (Cpu { halted: true, ..*old(self) }),
    {
        self.halted = true;
        0
    }

    /// Push a word on the stack, which grows downwards.
    fn stack_push(&mut self, value: u16)
        ensures
            pushed(*old(self), value, *final(self)),
    {
        self.regs.sp = self.regs.sp.wrapping_sub(2);
        write_word(&mut self.mem, self.regs.sp, value);
    }

    /// Pop a word from the stack.
    fn stack_pop(&mut self) -> (r: u16)
        ensures
            r == word_value(old(self).mem, old(self).regs.sp),
            *final(self) == with_regs(*old(self), Registers { sp: add2(old(self).regs.sp), ..old(self).regs }),
    {
        let value = read_word(&mut self.mem, self.regs.sp);
        self.regs.sp = self.regs.sp.wrapping_add(2);
        value
    }

    /// Call the subroutine at `address`: push PC, then jump.
    fn cpu_call(&mut self, address: u16)
        ensures
            final(self).regs == (Registers { pc: address, sp: sub2(old(self).regs.sp), ..old(self).regs }),
            word_written(old(self).mem, sub2(old(self).regs.sp), old(self).regs.pc, final(self).mem),
            same_control(*old(self), *final(self)),
    {
        let pc = self.regs.pc;
        self.stack_push(pc);
        self.regs.pc = address;
    }

    /// Jump relative to PC by the signed byte `b`.
    fn cpu_jr(&mut self, b: u8)
        ensures
            *final(self) == with_regs(*old(self), Registers { pc: offset16(old(self).regs.pc, b), ..old(self).regs }),
    {
        if b < 128 {
            self.regs.pc = self.regs.pc.wrapping_add(b as u16);
        } else {
            self.regs.pc = self.regs.pc.wrapping_sub(256 - b as u16);
        }
    }

    /// HL += v, setting N, H and C.
    fn alu_add_hl(&mut self, v: u16)
        ensures
            *final(self) == with_regs(*old(self), add_hl_regs(old(self).regs, v)),
    {
        let hl = self.regs.hl();
        let sum = hl as u32 + v as u32;
        let h = hl % 4096 + v % 4096 > 4095;
        let z = self.regs.flag(Z_FLAG);
        self.regs.set_hl((sum % 0x10000) as u16);
        self.regs.f = make_flags(z, false, h, sum > 0xFFFF);
    }

    /// SP plus the signed byte `n`, with the flags it sets.
    fn alu_add16_signed(&mut self, sp: u16, n: u8) -> (r: u16)
        ensures
            r == offset16(sp, n),
            *final(self) == with_regs(*old(self), Registers { f: add_sp_flags(sp, n), ..old(self).regs }),
    {
        let h = sp % 16 + n as u16 % 16 > 15;
        let c = sp % 256 + n as u16 > 255;
        self.regs.f = make_flags(false, false, h, c);
        if n < 128 {
            sp.wrapping_add(n as u16)
        } else {
            sp.wrapping_sub(256 - n as u16)
        }
    }

    /// Add `b` (and the carry when `add_c`) to A.
    fn alu_add(&mut self, b: u8, add_c: bool)
        ensures
            *final(self) == with_regs(*old(self), add_regs(old(self).regs, b, add_c)),
    {
        let a = self.regs.a;
        let c: u16 = if add_c && self.regs.flag(C_FLAG) { 1 } else { 0 };
        let sum = a as u16 + b as u16 + c;
        let res = (sum % 256) as u8;
        let h = a as u16 % 16 + b as u16 % 16 + c > 15;
        self.regs.a = res;
        self.regs.f = make_flags(res == 0, false, h, sum > 255);
    }

    /// Subtract `b` (and the carry when `sub_c`) from A.
    fn alu_sub(&mut self, b: u8, sub_c: bool)
        ensures
            *final(self) == with_regs(*old(self), sub_regs(old(self).regs, b, sub_c)),
    {
        let a = self.regs.a;
        let c: u16 = if sub_c && self.regs.flag(C_FLAG) { 1 } else { 0 };
        let res = ((a as u16 + 512 - b as u16 - c) % 256) as u8;
        let h = (a as u16 % 16) < b as u16 % 16 + c;
        let cy = (a as u16) < b as u16 + c;
        self.regs.a = res;
        self.regs.f = make_flags(res == 0, true, h, cy);
    }

    /// A &= b.
    fn alu_and(&mut self, b: u8)
        ensures
            *final(self) == with_regs(*old(self), and_regs(old(self).regs, b)),
    {
        let r = self.regs.a & b;
        self.regs.a = r;
        self.regs.f = make_flags(r == 0, false, true, false);
    }

    /// A |= b.
    fn alu_or(&mut self, b: u8)
        ensures
            *final(self) == with_regs(*old(self), or_regs(old(self).regs, b)),
    {
        let r = self.regs.a | b;
        self.regs.a = r;
        self.regs.f = make_flags(r == 0, false, false, false);
    }

    /// A ^= b.
    fn alu_xor(&mut self, b: u8)
        ensures
            *final(self) == with_regs(*old(self), xor_regs(old(self).regs, b)),
    {
        let r = self.regs.a ^ b;
        self.regs.a = r;
        self.regs.f = make_flags(r == 0, false, false, false);
    }

    /// Compare A with `b`: the flags of a subtraction, A unchanged.
    fn alu_cp(&mut self, b: u8)
        ensures
            *final(self) == with_regs(*old(self), cp_regs(old(self).regs, b)),
    {
        let a = self.regs.a;
        self.alu_sub(b, false);
        self.regs.a = a;
    }

    /// Increment a byte, setting Z, N and H; C is kept.
    fn alu_inc(&mut self, v: u8) -> (r: u8)
        ensures
            r == inc_value(v),
            *final(self) == with_regs(*old(self), Registers { f: inc_flags(v, old(self).regs.f), ..old(self).regs }),
    {
        let r = v.wrapping_add(1);
        let c = self.regs.flag(C_FLAG);
        self.regs.f = make_flags(r == 0, false, r % 16 == 0, c);
        r
    }

    /// Decrement a byte, setting Z, N and H; C is kept.
    fn alu_dec(&mut self, v: u8) -> (r: u8)
        ensures
            r == dec_value(v),
            *final(self) == with_regs(*old(self), Registers { f: dec_flags(v, old(self).regs.f), ..old(self).regs }),
    {
        let r = v.wrapping_sub(1);
        let c = self.regs.flag(C_FLAG);
        self.regs.f = make_flags(r == 0, true, r % 16 == 15, c);
        r
    }

    /// Rotate left through the carry.
    fn alu_rl(&mut self, v: u8) -> (r: u8)
        ensures
            r == rl_value(v, old(self).regs.f),
            *final(self) == with_regs(*old(self), Registers { f: shift_flags(r, out_left(v)), ..old(self).regs }),
    {
        let cin: u8 = if self.regs.flag(C_FLAG) { 1 } else { 0 };
        let r = ((v as u16 * 2) % 256) as u8 + cin;
        self.regs.f = make_flags(r == 0, false, false, v >= 128);
        r
    }

    /// Rotate left, bit 7 into bit 0 and the carry.
    fn alu_rlc(&mut self, v: u8) -> (r: u8)
        ensures
            r == rlc_value(v),
            *final(self) == with_regs(*old(self), Registers { f: shift_flags(r, out_left(v)), ..old(self).regs }),
    {
        let r = ((v as u16 * 2) % 256) as u8 + v / 128;
        self.regs.f = make_flags(r == 0, false, false, v >= 128);
        r
    }

    /// Rotate right through the carry.
    fn alu_rr(&mut self, v: u8) -> (r: u8)
        ensures
            r == rr_value(v, old(self).regs.f),
            *final(self) == with_regs(*old(self), Registers { f: shift_flags(r, out_right(v)), ..old(self).regs }),
    {
        let cin: u8 = if self.regs.flag(C_FLAG) { 128 } else { 0 };
        let r = v / 2 + cin;
        self.regs.f = make_flags(r == 0, false, false, v % 2 == 1);
        r
    }

    /// Rotate right, bit 0 into bit 7 and the carry.
    fn alu_rrc(&mut self, v: u8) -> (r: u8)
        ensures
            r == rrc_value(v),
            *final(self) == with_regs(*old(self), Registers { f: shift_flags(r, out_right(v)), ..old(self).regs }),
    {
        let r = v / 2 + (v % 2) * 128;
        self.regs.f = make_flags(r == 0, false, false, v % 2 == 1);
        r
    }

    /// Shift left arithmetic.
    fn alu_sla(&mut self, v: u8) -> (r: u8)
        ensures
            r == sla_value(v),
            *final(self) == with_regs(*old(self), Registers { f: shift_flags(r, out_left(v)), ..old(self).regs }),
    {
        let r = ((v as u16 * 2) % 256) as u8;
        self.regs.f = make_flags(r == 0, false, false, v >= 128);
        r
    }

    /// Shift right arithmetic.
    fn alu_sra(&mut self, v: u8) -> (r: u8)
        ensures
            r == sra_value(v),
            *final(self) == with_regs(*old(self), Registers { f: shift_flags(r, out_right(v)), ..old(self).regs }),
    {
        let r = v / 2 + (v / 128) * 128;
        self.regs.f = make_flags(r == 0, false, false, v % 2 == 1);
        r
    }

    /// Shift right logical.
    fn alu_srl(&mut self, v: u8) -> (r: u8)
        ensures
            r == srl_value(v),
            *final(self) == with_regs(*old(self), Registers { f: shift_flags(r, out_right(v)), ..old(self).regs }),
    {
        let r = v / 2;
        self.regs.f = make_flags(r == 0, false, false, v % 2 == 1);
        r
    }

    /// Exchange the nibbles; only Z may be set.
    fn alu_swap(&mut self, v: u8) -> (r: u8)
        ensures
            r == swap_value(v),
            *final(self) == with_regs(*old(self), Registers { f: shift_flags(r, false), ..old(self).regs }),
    {
        let r = (v % 16) * 16 + v / 16;
        self.regs.f = make_flags(r == 0, false, false, false);
        r
    }

    /// Test bit `k` of `v`: Z is its inverse, N clear, H set, C kept.
    fn alu_bit(&mut self, v: u8, k: u8)
        requires
            k < 8,
        ensures
            *final(self) == with_regs(*old(self), Registers { f: bit_flags(v, k, old(self).regs.f), ..old(self).regs }),
    {
        let c = self.regs.flag(C_FLAG);
        self.regs.f = make_flags((v >> k) & 1 != 1, false, true, c);
    }
}


/// ADD: A becomes (a + b) mod 256, Z tells whether that is zero and C
/// whether the sum reached 256.
pub proof fn lemma_add_law(r: Registers, b: u8)
    ensures
        ({
            let r2 = add_regs(r, b, false);
            &&& r2.a as nat == (r.a as nat + b as nat) % 256
            &&& has_flag(r2.f, Z_FLAG) == (r2.a == 0)
            &&& has_flag(r2.f, C_FLAG) == (r.a as nat + b as nat >= 256)
            &&& !has_flag(r2.f, N_FLAG)
        }),
{
    let sum = r.a as nat + b as nat;
    let res = (sum % 256) as u8;
    crate::registers::lemma_flags_of(res == 0, false, r.a as nat % 16 + b as nat % 16 > 15, sum > 255);
}

/// SUB: A becomes (a - b) mod 256, and C tells whether a < b.
pub proof fn lemma_sub_law(r: Registers, b: u8)
    ensures
        ({
            let r2 = sub_regs(r, b, false);
            &&& r2.a as int == (r.a as int - b as int) % 256
            &&& has_flag(r2.f, C_FLAG) == (r.a < b)
            &&& has_flag(r2.f, Z_FLAG) == (r2.a == 0)
            &&& has_flag(r2.f, N_FLAG)
        }),
{
    let res = ((r.a as int - b as int + 512) % 256) as u8;
    crate::registers::lemma_flags_of(
        res == 0,
        true,
        (r.a as nat % 16) < b as nat % 16,
        (r.a as nat) < b as nat,
    );
}

/// BIT k: Z is set exactly when bit k of the operand is clear; N is
/// cleared and H set.
pub proof fn lemma_bit_law(v: u8, k: u8, f: u8)
    requires
        k < 8,
    ensures
        has_flag(bit_flags(v, k, f), Z_FLAG) == ((v >> k) & 1 == 0),
        !has_flag(bit_flags(v, k, f), N_FLAG),
        has_flag(bit_flags(v, k, f), H_FLAG),
        has_flag(bit_flags(v, k, f), C_FLAG) == has_flag(f, C_FLAG),
{
    crate::registers::lemma_flags_of(!test_bit(v, k), false, true, has_flag(f, C_FLAG));
    assert((v >> k) & 1 != 1 <==> (v >> k) & 1 == 0) by (bit_vector);
}

/// SWAP: the result is the operand's nibbles exchanged, and the only flag
/// that can be set is Z, exactly when the result is zero.
pub proof fn lemma_swap_law(v: u8)
    ensures
        swap_value(v) == ((v << 4u8) | (v >> 4u8)) & 0xFF,
        shift_flags(swap_value(v), false) == if swap_value(v) == 0 { Z_FLAG } else { 0 },
{
    let s = swap_value(v);
    assert(s == (v % 16) * 16 + v / 16);
    assert((v % 16) * 16 + v / 16 == ((v << 4u8) | (v >> 4u8)) & 0xFF) by (bit_vector);
}

/// Pushing a word on a plain 64 KiB memory and popping it again gives the
/// word back (with the low nibble of F cleared, for AF), and SP its value.
pub proof fn lemma_push_pop(pre: Cpu<crate::memory::FlatMemory>, v: u16, post: Cpu<crate::memory::FlatMemory>)
    requires
        pre.mem.bytes@.len() == 0x10000,
        pushed(pre, v, post),
    ensures
        word_value(post.mem, post.regs.sp) == v,
        add2(post.regs.sp) == pre.regs.sp,
        (word_value(post.mem, post.regs.sp) as nat / 256) as u8 == high(v),
        (low(word_value(post.mem, post.regs.sp)) as nat / 16 * 16) as u8 == (low(v) as nat / 16 * 16) as u8,
{
    let a = sub2(pre.regs.sp);
    let lo = (v as nat % 256) as u8;
    let hi = (v as nat / 256) as u8;
    let mid = choose|mid: crate::memory::FlatMemory|
        pre.mem.written(a, lo, mid) && #[trigger] mid.written(next_address(a), hi, post.mem);
    assert(a != next_address(a));
    assert(post.mem.bytes@ == pre.mem.bytes@.update(a as int, lo).update(next_address(a) as int, hi));
    assert(post.mem.read_value(a) == lo);
    assert(post.mem.read_value(next_address(a)) == hi);
}


/// When the master switch is on and some line is both enabled and
/// requested, a step of a running processor begins by servicing the lowest
/// such line: its IF bit is cleared, the old PC is pushed, PC is loaded with
/// the line's vector and the master switch is turned off, before the
/// instruction there is fetched.
pub proof fn lemma_step_dispatches_interrupt<M: Memory + MemoryManagementUnit>(
    pre: Cpu<M>,
    post: Cpu<M>,
    r: CycleType,
)
    requires
        stepped(pre, post, r),
        !pre.halted,
        pre.ime,
        lowest_line(pre.mem.read_value(0xFFFF) & pre.mem.read_value(0xFF0F) & 0x1F) < 5,
    ensures
        ({
            let i = lowest_line(pre.mem.read_value(0xFFFF) & pre.mem.read_value(0xFF0F) & 0x1F);
            exists|s1: Cpu<M>, mid: M|
                #[trigger] interrupt_serviced(pre, s1) && #[trigger] pre.mem.written(
                    0xFF0F,
                    pre.mem.read_value(0xFF0F) & !line_mask(i),
                    mid,
                ) && word_written(mid, sub2(pre.regs.sp), pre.regs.pc, s1.mem) && s1.regs.pc
                    == line_vector(i) && s1.regs.sp == sub2(pre.regs.sp) && !s1.ime
        }),
{
    let i = lowest_line(pre.mem.read_value(0xFFFF) & pre.mem.read_value(0xFF0F) & 0x1F);
    let (s1, s3) = choose|s1: Cpu<M>, s3: Cpu<M>|
        {
            &&& interrupt_serviced(pre, s1)
            &&& #[trigger] primary_effect(fetched_opcode(s1), after_opcode_fetch(s1), s3, r)
            &&& post.regs == s3.regs && post.halted == s3.halted && post.ime == s3.ime
            &&& post.if_reg_before_halt == s3.if_reg_before_halt
            &&& post.cycles == cycles_plus(pre.cycles, r)
            &&& s3.mem.stepped(r, post.mem)
        };
    let mid = choose|mid: M|
        #[trigger] pre.mem.written(0xFF0F, pre.mem.read_value(0xFF0F) & !line_mask(i), mid)
            && word_written(mid, sub2(pre.regs.sp), pre.regs.pc, s1.mem) && s1.regs == (Registers {
            pc: line_vector(i),
            sp: sub2(pre.regs.sp),
            ..pre.regs
        }) && !s1.ime && s1.cycles == pre.cycles && s1.halted == pre.halted
            && s1.if_reg_before_halt == pre.if_reg_before_halt;
    assert(interrupt_serviced(pre, s1) && pre.mem.written(
        0xFF0F,
        pre.mem.read_value(0xFF0F) & !line_mask(i),
        mid,
    ));
}


/// On the bus, a word pushed on a stack held in work or high RAM pops back
/// unchanged, and SP returns to its value.
pub proof fn lemma_push_pop_bus(pre: Cpu<crate::mmu::MMU>, v: u16, post: Cpu<crate::mmu::MMU>)
    requires
        pre.mem.wf(),
        crate::mmu::plain_ram(sub2(pre.regs.sp)),
        crate::mmu::plain_ram(next_address(sub2(pre.regs.sp))),
        pushed(pre, v, post),
    ensures
        word_value(post.mem, post.regs.sp) == v,
        add2(post.regs.sp) == pre.regs.sp,
        post.mem.wf(),
{
    let a = sub2(pre.regs.sp);
    let b = next_address(a);
    let lo = (v as nat % 256) as u8;
    let hi = (v as nat / 256) as u8;
    let mid = choose|mid: crate::mmu::MMU| pre.mem.written(a, lo, mid) && #[trigger] mid.written(b, hi, post.mem);
    crate::mmu::lemma_written_wf(pre.mem, a, lo, mid);
    crate::mmu::lemma_written_wf(mid, b, hi, post.mem);
    crate::mmu::lemma_ram_write_read(pre.mem, a, lo, mid);
    crate::mmu::lemma_ram_write_read(mid, b, hi, post.mem);
    crate::mmu::lemma_ram_write_keeps_others(mid, b, hi, post.mem, a);
}

/// On the bus, with the stack in work or high RAM, servicing line `i` leaves
/// the old PC readable at the new SP (low byte first), IF with bit `i`
/// cleared and IE unchanged.
pub proof fn lemma_interrupt_bus(pre: Cpu<crate::mmu::MMU>, post: Cpu<crate::mmu::MMU>)
    requires
        pre.mem.wf(),
        pre.ime,
        lowest_line(pre.mem.read_value(0xFFFF) & pre.mem.read_value(0xFF0F) & 0x1F) < 5,
        crate::mmu::plain_ram(sub2(pre.regs.sp)),
        crate::mmu::plain_ram(next_address(sub2(pre.regs.sp))),
        interrupt_serviced(pre, post),
    ensures
        ({
            let i = lowest_line(pre.mem.read_value(0xFFFF) & pre.mem.read_value(0xFF0F) & 0x1F);
            &&& post.regs.pc == line_vector(i)
            &&& post.regs.sp == sub2(pre.regs.sp)
            &&& !post.ime
            &&& post.mem.read_value(post.regs.sp) == low(pre.regs.pc)
            &&& post.mem.read_value(next_address(post.regs.sp)) == high(pre.regs.pc)
            &&& post.mem.read_value(0xFF0F) == pre.mem.read_value(0xFF0F) & !line_mask(i)
            &&& post.mem.read_value(0xFFFF) == pre.mem.read_value(0xFFFF)
            &&& post.mem.wf()
        }),
{
    let i = lowest_line(pre.mem.read_value(0xFFFF) & pre.mem.read_value(0xFF0F) & 0x1F);
    let flag = pre.mem.read_value(0xFF0F) & !line_mask(i);
    let m1 = choose|mid: crate::mmu::MMU|
        #[trigger] pre.mem.written(0xFF0F, flag, mid) && word_written(mid, sub2(pre.regs.sp), pre.regs.pc, post.mem)
            && post.regs == (Registers { pc: line_vector(i), sp: sub2(pre.regs.sp), ..pre.regs }) && !post.ime
            && post.cycles == pre.cycles && post.halted == pre.halted
            && post.if_reg_before_halt == pre.if_reg_before_halt;
    crate::mmu::lemma_written_wf(pre.mem, 0xFF0F, flag, m1);
    let a = sub2(pre.regs.sp);
    let b = next_address(a);
    let lo = (pre.regs.pc as nat % 256) as u8;
    let hi = (pre.regs.pc as nat / 256) as u8;
    let m2 = choose|mid: crate::mmu::MMU| m1.written(a, lo, mid) && #[trigger] mid.written(b, hi, post.mem);
    crate::mmu::lemma_written_wf(m1, a, lo, m2);
    crate::mmu::lemma_written_wf(m2, b, hi, post.mem);
    crate::mmu::lemma_ram_write_read(m1, a, lo, m2);
    crate::mmu::lemma_ram_write_read(m2, b, hi, post.mem);
    crate::mmu::lemma_ram_write_keeps_others(m2, b, hi, post.mem, a);
    crate::mmu::lemma_ram_write_keeps_others(m1, a, lo, m2, 0xFF0F);
    crate::mmu::lemma_ram_write_keeps_others(m2, b, hi, post.mem, 0xFF0F);
    crate::mmu::lemma_ram_write_keeps_others(m1, a, lo, m2, 0xFFFF);
    crate::mmu::lemma_ram_write_keeps_others(m2, b, hi, post.mem, 0xFFFF);
}

} // verus!
