#![allow(non_snake_case)]

use rustboylib::cpu::{CycleType, Cpu};
use rustboylib::memory::{FlatMemory, Memory};
use rustboylib::registers::{C_FLAG, H_FLAG, N_FLAG, Z_FLAG};

const OPCODE_END: u8 = 0xD3;
const OPCODES_LIMIT: u32 = 100;

struct TestMachine {
    cpu: Cpu<FlatMemory>,
}

impl TestMachine {
    fn clock_cycles(&self) -> CycleType {
        self.cpu.cycles() * 4
    }
}

/// Load `instructions` at address 0, followed by an end marker, prepare the
/// processor with `init`, then step until PC reaches the marker.
fn test_cpu<F: Fn(&mut Cpu<FlatMemory>)>(instructions: &[u8], init: F) -> TestMachine {
    let mut instrs = instructions.to_vec();
    instrs.push(OPCODE_END);
    let mut mem = FlatMemory::new(0x10000);
    mem.load(&instrs);
    let mut cpu = Cpu::new(mem);
    init(&mut cpu);
    let mut count = 0;
    while cpu.mem.bytes[cpu.regs.pc as usize] != OPCODE_END && count <= OPCODES_LIMIT {
        cpu.step();
        count += 1;
    }
    assert!(count < OPCODES_LIMIT, "test_cpu: opcodes limit reached");
    TestMachine { cpu }
}

#[test]
fn test_AND_HLm() {
    {
        let machine = test_cpu(&[0xA6], |cpu| {
            cpu.regs.f = N_FLAG | C_FLAG;
            cpu.regs.a = 0b_0101_1101;
            cpu.regs.set_hl(0xAF3D);
            let hl = cpu.regs.hl();
            cpu.mem.write_byte(hl, 0b_1100_0111);
        });
        assert_eq!(machine.clock_cycles(), 8);
        assert_eq!(machine.cpu.regs.a, 0b_0100_0101);
        assert_eq!(machine.cpu.regs.f, H_FLAG);
    }
    {
        let machine = test_cpu(&[0xA6], |cpu| {
            cpu.regs.f = N_FLAG | C_FLAG;
            cpu.regs.a = 0;
            cpu.regs.set_hl(0xAF3D);
            let hl = cpu.regs.hl();
            cpu.mem.write_byte(hl, 0);
        });
        assert_eq!(machine.clock_cycles(), 8);
        assert_eq!(machine.cpu.regs.a, 0);
        assert_eq!(machine.cpu.regs.f, Z_FLAG | H_FLAG);
    }
}

#[test]
fn test_OR_HLm() {
    let machine = test_cpu(&[0xB6], |cpu| {
        cpu.regs.f = N_FLAG | H_FLAG | C_FLAG;
        cpu.regs.a = 0b_0101_1101;
        cpu.regs.set_hl(0xAF3D);
        let hl = cpu.regs.hl();
        cpu.mem.write_byte(hl, 0b_1100_0111);
    });
    assert_eq!(machine.clock_cycles(), 8);
    assert_eq!(machine.cpu.regs.a, 0b_1101_1111);
    assert_eq!(machine.cpu.regs.f, 0);
}

#[test]
fn test_XOR_HLm() {
    let machine = test_cpu(&[0xAE], |cpu| {
        cpu.regs.f = N_FLAG | H_FLAG | C_FLAG;
        cpu.regs.a = 0b_0101_1101;
        cpu.regs.set_hl(0xAF3D);
        let hl = cpu.regs.hl();
        cpu.mem.write_byte(hl, 0b_1100_0111);
    });
    assert_eq!(machine.clock_cycles(), 8);
    assert_eq!(machine.cpu.regs.a, 0b_1001_1010);
    assert_eq!(machine.cpu.regs.f, 0);
}

#[test]
fn test_CB_SWAP_HLm() {
    {
        let mut machine = test_cpu(&[0xCB, 0x36], |cpu| {
            cpu.regs.f = N_FLAG | H_FLAG | C_FLAG;
            cpu.regs.set_hl(0x29DA);
        });
        assert_eq!(machine.clock_cycles(), 16);
        assert_eq!(machine.cpu.mem.read_byte(0x29DA), 0);
        assert_eq!(machine.cpu.regs.f, Z_FLAG);
    }
    {
        let mut machine = test_cpu(&[0xCB, 0x36], |cpu| {
            cpu.regs.f = Z_FLAG | N_FLAG | H_FLAG | C_FLAG;
            cpu.regs.set_hl(0x29DA);
            let hl = cpu.regs.hl();
            cpu.mem.write_byte(hl, 0b_0110_1100);
        });
        assert_eq!(machine.clock_cycles(), 16);
        assert_eq!(machine.cpu.mem.read_byte(0x29DA), 0b_1100_0110);
        assert_eq!(machine.cpu.regs.f, 0);
    }
}

#[test]
fn test_JP_nn() {
    let machine = test_cpu(&[0xC3, 0xA9, 0x5D], |cpu| {
        cpu.mem.write_byte(0x5DA9, OPCODE_END);
    });
    assert_eq!(machine.clock_cycles(), 16);
    assert_eq!(machine.cpu.regs.pc, 0x5DA9);
}

#[test]
fn test_JP_HLm() {
    let machine = test_cpu(&[0xE9], |cpu| {
        cpu.regs.set_hl(0xBF5C);
        let hl = cpu.regs.hl();
        cpu.mem.write_byte(hl, OPCODE_END);
    });
    assert_eq!(machine.clock_cycles(), 4);
    assert_eq!(machine.cpu.regs.pc, 0xBF5C);
}

#[test]
fn test_JR_n() {
    {
        let machine = test_cpu(&[0x18, 0x03], |cpu| {
            cpu.mem.write_byte(0x05, OPCODE_END);
        });
        assert_eq!(machine.clock_cycles(), 12);
        assert_eq!(machine.cpu.regs.pc, 0x05);
    }
    {
        let machine = test_cpu(&[OPCODE_END, 0x00, 0x18, 0xFC], |cpu| cpu.regs.pc = 0x02);
        assert_eq!(machine.clock_cycles(), 12);
        assert_eq!(machine.cpu.regs.pc, 0x00);
    }
}

#[test]
fn test_CALL_nn() {
    let mut machine = test_cpu(&[], |cpu| {
        cpu.regs.sp = 0xFFFE;
        cpu.regs.pc = 0xA3E9;
        let pc = cpu.regs.pc;
        cpu.mem.write_byte(pc, 0xCD);
        cpu.mem.write_byte(pc + 1, 0x78);
        cpu.mem.write_byte(pc + 2, 0xDF);
        cpu.mem.write_byte(0xDF78, OPCODE_END);
    });
    assert_eq!(machine.clock_cycles(), 24);
    assert_eq!(machine.cpu.regs.pc, 0xDF78);
    assert_eq!(machine.cpu.regs.sp, 0xFFFC);
    assert_eq!(machine.cpu.mem.read_byte(0xFFFC), 0xEC);
    assert_eq!(machine.cpu.mem.read_byte(0xFFFD), 0xA3);
}

#[test]
fn test_RET() {
    let machine = test_cpu(&[0xC9], |cpu| {
        cpu.regs.sp = 0xFFFC;
        cpu.mem.write_byte(0xFFFC, 0xEC);
        cpu.mem.write_byte(0xFFFD, 0xA3);
        cpu.mem.write_byte(0xA3EC, OPCODE_END);
    });
    assert_eq!(machine.clock_cycles(), 16);
    assert_eq!(machine.cpu.regs.sp, 0xFFFE);
    assert_eq!(machine.cpu.regs.pc, 0xA3EC);
}

#[test]
fn test_RETI() {
    let machine = test_cpu(&[0xD9], |cpu| {
        cpu.ime = false;
        cpu.regs.sp = 0xFFFC;
        cpu.mem.write_byte(0xFFFC, 0xEC);
        cpu.mem.write_byte(0xFFFD, 0xA3);
        cpu.mem.write_byte(0xA3EC, OPCODE_END);
    });
    assert_eq!(machine.clock_cycles(), 16);
    assert_eq!(machine.cpu.regs.sp, 0xFFFE);
    assert_eq!(machine.cpu.regs.pc, 0xA3EC);
    assert_eq!(machine.cpu.ime, true);
}

#[test]
fn test_LD_HLm_r_h() {
    let mut machine = test_cpu(&[0x74], |cpu| {
        cpu.regs.set_hl(0x7AD8);
    });
    assert_eq!(machine.clock_cycles(), 8);
    assert_eq!(machine.cpu.mem.read_byte(0x7AD8), 0x7A);
}

#[test]
fn test_LD_HLm_r_l() {
    let mut machine = test_cpu(&[0x75], |cpu| {
        cpu.regs.set_hl(0x7AD8);
    });
    assert_eq!(machine.clock_cycles(), 8);
    assert_eq!(machine.cpu.mem.read_byte(0x7AD8), 0xD8);
}

#[test]
fn test_LD_HLm_n() {
    let mut machine = test_cpu(&[0x36, 0x9A], |cpu| {
        cpu.regs.set_hl(0x7AD8);
    });
    assert_eq!(machine.clock_cycles(), 12);
    assert_eq!(machine.cpu.mem.read_byte(0x7AD8), 0x9A);
}

#[test]
fn test_LD_BCm_A() {
    let mut machine = test_cpu(&[0x02], |cpu| {
        cpu.regs.set_bc(0x7AD8);
        cpu.regs.a = 0x9A;
    });
    assert_eq!(machine.clock_cycles(), 8);
    assert_eq!(machine.cpu.mem.read_byte(0x7AD8), 0x9A);
}

#[test]
fn test_LD_DEm_A() {
    let mut machine = test_cpu(&[0x12], |cpu| {
        cpu.regs.set_de(0x7AD8);
        cpu.regs.a = 0x9A;
    });
    assert_eq!(machine.clock_cycles(), 8);
    assert_eq!(machine.cpu.mem.read_byte(0x7AD8), 0x9A);
}

#[test]
fn test_LD_A_BCm() {
    let machine = test_cpu(&[0x0A], |cpu| {
        cpu.regs.set_bc(0x7AD8);
        let bc = cpu.regs.bc();
        cpu.mem.write_byte(bc, 0x9A);
    });
    assert_eq!(machine.clock_cycles(), 8);
    assert_eq!(machine.cpu.regs.a, 0x9A);
}

#[test]
fn test_LD_A_DEm() {
    let machine = test_cpu(&[0x1A], |cpu| {
        cpu.regs.set_de(0x7AD8);
        let de = cpu.regs.de();
        cpu.mem.write_byte(de, 0x9A);
    });
    assert_eq!(machine.clock_cycles(), 8);
    assert_eq!(machine.cpu.regs.a, 0x9A);
}

#[test]
fn test_LD_BC_nn() {
    let machine = test_cpu(&[0x01, 0x4B, 0xDE], |_| {});
    assert_eq!(machine.clock_cycles(), 12);
    assert_eq!(machine.cpu.regs.bc(), 0xDE4B);
}

#[test]
fn test_LD_DE_nn() {
    let machine = test_cpu(&[0x11, 0x4B, 0xDE], |_| {});
    assert_eq!(machine.clock_cycles(), 12);
    assert_eq!(machine.cpu.regs.de(), 0xDE4B);
}

#[test]
fn test_LD_HL_nn() {
    let machine = test_cpu(&[0x21, 0x4B, 0xDE], |_| {});
    assert_eq!(machine.clock_cycles(), 12);
    assert_eq!(machine.cpu.regs.hl(), 0xDE4B);
}

#[test]
fn test_LD_SP_nn() {
    let machine = test_cpu(&[0x31, 0x4B, 0xDE], |_| {});
    assert_eq!(machine.clock_cycles(), 12);
    assert_eq!(machine.cpu.regs.sp, 0xDE4B);
}

#[test]
fn test_LD_NNm_A() {
    let mut machine = test_cpu(&[0xEA, 0x4B, 0xDE], |cpu| {
        cpu.regs.a = 0x9A;
    });
    assert_eq!(machine.clock_cycles(), 16);
    assert_eq!(machine.cpu.mem.read_byte(0xDE4B), 0x9A);
}

#[test]
fn test_LD_A_NNm() {
    let machine = test_cpu(&[0xFA, 0x4B, 0xDE], |cpu| {
        cpu.mem.write_byte(0xDE4B, 0x9A);
    });
    assert_eq!(machine.clock_cycles(), 16);
    assert_eq!(machine.cpu.regs.a, 0x9A);
}

#[test]
fn test_LDI_HLm_A() {
    let mut machine = test_cpu(&[0x22], |cpu| {
        cpu.regs.a = 0x9A;
        cpu.regs.set_hl(0x97D3);
    });
    assert_eq!(machine.clock_cycles(), 8);
    assert_eq!(machine.cpu.mem.read_byte(0x97D3), 0x9A);
    assert_eq!(machine.cpu.regs.hl(), 0x97D4);
}

#[test]
fn test_LDD_HLm_A() {
    let mut machine = test_cpu(&[0x32], |cpu| {
        cpu.regs.a = 0x9A;
        cpu.regs.set_hl(0x97D3);
    });
    assert_eq!(machine.clock_cycles(), 8);
    assert_eq!(machine.cpu.mem.read_byte(0x97D3), 0x9A);
    assert_eq!(machine.cpu.regs.hl(), 0x97D2);
}

#[test]
fn test_LDI_A_HLm() {
    let machine = test_cpu(&[0x2A], |cpu| {
        cpu.regs.set_hl(0x97D3);
        let hl = cpu.regs.hl();
        cpu.mem.write_byte(hl, 0x9A);
    });
    assert_eq!(machine.clock_cycles(), 8);
    assert_eq!(machine.cpu.regs.a, 0x9A);
    assert_eq!(machine.cpu.regs.hl(), 0x97D4);
}

#[test]
fn test_LDD_A_HLm() {
    let machine = test_cpu(&[0x3A], |cpu| {
        cpu.regs.set_hl(0x97D3);
        let hl = cpu.regs.hl();
        cpu.mem.write_byte(hl, 0x9A);
    });
    assert_eq!(machine.clock_cycles(), 8);
    assert_eq!(machine.cpu.regs.a, 0x9A);
    assert_eq!(machine.cpu.regs.hl(), 0x97D2);
}

#[test]
fn test_LDH_n_A() {
    let mut machine = test_cpu(&[0xE0, 0xC3], |cpu| cpu.regs.a = 0x9A);
    assert_eq!(machine.clock_cycles(), 12);
    assert_eq!(machine.cpu.mem.read_byte(0xFFC3), 0x9A);
}

#[test]
fn test_LDH_A_n() {
    let machine = test_cpu(&[0xF0, 0xC3], |cpu| {
        cpu.mem.write_byte(0xFFC3, 0x9A);
    });
    assert_eq!(machine.clock_cycles(), 12);
    assert_eq!(machine.cpu.regs.a, 0x9A);
}

#[test]
fn test_LDH_C_A() {
    let mut machine = test_cpu(&[0xE2], |cpu| {
        cpu.regs.a = 0x9A;
        cpu.regs.c = 0xC3;
    });
    assert_eq!(machine.clock_cycles(), 8);
    assert_eq!(machine.cpu.mem.read_byte(0xFFC3), 0x9A);
}

#[test]
fn test_LDH_A_A() {
    let machine = test_cpu(&[0xF2], |cpu| {
        cpu.regs.c = 0xC3;
        cpu.mem.write_byte(0xFFC3, 0x9A);
    });
    assert_eq!(machine.clock_cycles(), 8);
    assert_eq!(machine.cpu.regs.a, 0x9A);
}

#[test]
fn test_LDHL_SP_n() {
    // SP = 0xFFF8, n = +2: HL = 0xFFFA; the low-byte addition 0xF8 + 0x02 carries neither way
    let machine = test_cpu(&[0xF8, 0x02], |cpu| cpu.regs.sp = 0xFFF8);
    assert_eq!(machine.clock_cycles(), 12);
    assert_eq!(machine.cpu.regs.hl(), 0xFFFA);
    assert_eq!(machine.cpu.regs.f, 0);
    // n = -1 (0xFF): 0x0000 - 1 wraps, and 0x00 + 0xFF sets no carry
    let machine = test_cpu(&[0xF8, 0xFF], |cpu| cpu.regs.sp = 0x0000);
    assert_eq!(machine.cpu.regs.hl(), 0xFFFF);
    assert_eq!(machine.cpu.regs.f, 0);
    // 0x0F + 0x01 carries out of bit 3, 0xFF + 0x01 out of bit 7
    let machine = test_cpu(&[0xF8, 0x01], |cpu| cpu.regs.sp = 0x00FF);
    assert_eq!(machine.cpu.regs.hl(), 0x0100);
    assert_eq!(machine.cpu.regs.f, H_FLAG | C_FLAG);
}

#[test]
fn register_to_register_load_scenario() {
    let machine = test_cpu(&[0x41], |cpu| cpu.regs.c = 0x9A);
    assert_eq!(machine.cpu.regs.b, 0x9A);
    assert_eq!(machine.clock_cycles(), 4);
}

#[test]
fn cb_bit_test_scenario() {
    let machine = test_cpu(&[0xCB, 0x40], |cpu| {
        cpu.regs.b = 0x01;
        cpu.regs.f = N_FLAG | C_FLAG;
    });
    assert_eq!(machine.cpu.regs.f & Z_FLAG, 0);
    assert_eq!(machine.cpu.regs.f & N_FLAG, 0);
    assert_eq!(machine.cpu.regs.f & H_FLAG, H_FLAG);
    assert_eq!(machine.cpu.regs.f & C_FLAG, C_FLAG);
    assert_eq!(machine.clock_cycles(), 8);
}

#[test]
fn conditional_relative_jump_scenario() {
    let machine = test_cpu(&[0x20, 0x03], |cpu| {
        cpu.regs.f = 0;
        cpu.mem.write_byte(0x05, OPCODE_END);
    });
    assert_eq!(machine.cpu.regs.pc, 0x05);
    assert_eq!(machine.clock_cycles(), 12);
    // not taken when Z is set
    let machine = test_cpu(&[0x20, 0x03], |cpu| cpu.regs.f = Z_FLAG);
    assert_eq!(machine.cpu.regs.pc, 0x02);
    assert_eq!(machine.clock_cycles(), 8);
}

#[test]
fn call_and_return_scenario() {
    let mut mem = FlatMemory::new(0x10000);
    mem.write_byte(0xA3E9, 0xCD);
    mem.write_byte(0xA3EA, 0x78);
    mem.write_byte(0xA3EB, 0xDF);
    mem.write_byte(0xDF78, 0xC9);
    let mut cpu = Cpu::new(mem);
    cpu.regs.sp = 0xFFFE;
    cpu.regs.pc = 0xA3E9;
    assert_eq!(cpu.step(), 6);
    assert_eq!(cpu.regs.pc, 0xDF78);
    assert_eq!(cpu.regs.sp, 0xFFFC);
    assert_eq!(cpu.mem.read_byte(0xFFFC), 0xEC);
    assert_eq!(cpu.mem.read_byte(0xFFFD), 0xA3);
    assert_eq!(cpu.step(), 4);
    assert_eq!(cpu.regs.pc, 0xA3EC);
    assert_eq!(cpu.regs.sp, 0xFFFE);
}

#[test]
fn add_sets_result_and_flags() {
    // 0x3A + 0xC6 = 0x100: result zero, carry and half carry
    let machine = test_cpu(&[0x80], |cpu| {
        cpu.regs.a = 0x3A;
        cpu.regs.b = 0xC6;
    });
    assert_eq!(machine.cpu.regs.a, 0x00);
    assert_eq!(machine.cpu.regs.f, Z_FLAG | H_FLAG | C_FLAG);
    // ADC adds the carry
    let machine = test_cpu(&[0x88], |cpu| {
        cpu.regs.a = 0x0E;
        cpu.regs.b = 0x01;
        cpu.regs.f = C_FLAG;
    });
    assert_eq!(machine.cpu.regs.a, 0x10);
    assert_eq!(machine.cpu.regs.f, H_FLAG);
}

#[test]
fn sub_sets_result_and_borrow() {
    let machine = test_cpu(&[0x90], |cpu| {
        cpu.regs.a = 0x02;
        cpu.regs.b = 0x05;
    });
    assert_eq!(machine.cpu.regs.a, 0xFD);
    assert_eq!(machine.cpu.regs.f, N_FLAG | H_FLAG | C_FLAG);
    // CP leaves A alone
    let machine = test_cpu(&[0xFE, 0x3C], |cpu| cpu.regs.a = 0x3C);
    assert_eq!(machine.cpu.regs.a, 0x3C);
    assert_eq!(machine.cpu.regs.f, Z_FLAG | N_FLAG);
}

#[test]
fn bit_test_on_clear_bit_sets_zero() {
    let machine = test_cpu(&[0xCB, 0x7F], |cpu| cpu.regs.a = 0x7F);
    assert_eq!(machine.cpu.regs.f, Z_FLAG | H_FLAG);
}

#[test]
fn swap_exchanges_nibbles() {
    let machine = test_cpu(&[0xCB, 0x37], |cpu| {
        cpu.regs.a = 0xF1;
        cpu.regs.f = N_FLAG | H_FLAG | C_FLAG;
    });
    assert_eq!(machine.cpu.regs.a, 0x1F);
    assert_eq!(machine.cpu.regs.f, 0);
}

#[test]
fn push_then_pop_round_trips() {
    let machine = test_cpu(&[0xC5, 0xD1], |cpu| {
        cpu.regs.sp = 0xFFF0;
        cpu.regs.set_bc(0xBEEF);
    });
    assert_eq!(machine.cpu.regs.de(), 0xBEEF);
    assert_eq!(machine.cpu.regs.sp, 0xFFF0);
    // POP AF clears the low nibble of F
    let machine = test_cpu(&[0xC5, 0xF1], |cpu| {
        cpu.regs.sp = 0xFFF0;
        cpu.regs.set_bc(0x12FF);
    });
    assert_eq!(machine.cpu.regs.a, 0x12);
    assert_eq!(machine.cpu.regs.f, 0xF0);
}

#[test]
fn daa_adjusts_after_addition() {
    // 0x15 + 0x27 = 0x3C, adjusted to 0x42
    let machine = test_cpu(&[0x80, 0x27], |cpu| {
        cpu.regs.a = 0x15;
        cpu.regs.b = 0x27;
    });
    assert_eq!(machine.cpu.regs.a, 0x42);
    assert_eq!(machine.cpu.regs.f & C_FLAG, 0);
}

#[test]
fn rotate_a_clears_zero() {
    let machine = test_cpu(&[0x07], |cpu| cpu.regs.a = 0x80);
    assert_eq!(machine.cpu.regs.a, 0x01);
    assert_eq!(machine.cpu.regs.f, C_FLAG);
    let machine = test_cpu(&[0xCB, 0x07], |cpu| cpu.regs.a = 0x00);
    assert_eq!(machine.cpu.regs.f, Z_FLAG);
}

#[test]
fn inc_and_dec_keep_carry() {
    let machine = test_cpu(&[0x04], |cpu| {
        cpu.regs.b = 0xFF;
        cpu.regs.f = C_FLAG;
    });
    assert_eq!(machine.cpu.regs.b, 0x00);
    assert_eq!(machine.cpu.regs.f, Z_FLAG | H_FLAG | C_FLAG);
    let machine = test_cpu(&[0x05], |cpu| cpu.regs.b = 0x10);
    assert_eq!(machine.cpu.regs.b, 0x0F);
    assert_eq!(machine.cpu.regs.f, N_FLAG | H_FLAG);
}

#[test]
fn add_hl_sets_word_carries() {
    let machine = test_cpu(&[0x09], |cpu| {
        cpu.regs.set_hl(0x8FFF);
        cpu.regs.set_bc(0x8001);
        cpu.regs.f = Z_FLAG;
    });
    assert_eq!(machine.cpu.regs.hl(), 0x1000);
    assert_eq!(machine.cpu.regs.f, Z_FLAG | H_FLAG | C_FLAG);
}

#[test]
fn pending_interrupt_is_dispatched_first() {
    let mut mem = FlatMemory::new(0x10000);
    mem.write_byte(0xFFFF, 0x05);
    mem.write_byte(0xFF0F, 0x06);
    let mut cpu = Cpu::new(mem);
    cpu.regs.pc = 0x1234;
    cpu.regs.sp = 0xD000;
    // the handler at 0x50 is a NOP
    let cycles = cpu.step();
    assert_eq!(cycles, 1);
    assert_eq!(cpu.regs.pc, 0x51);
    assert_eq!(cpu.regs.sp, 0xCFFE);
    assert_eq!(cpu.mem.read_byte(0xCFFE), 0x34);
    assert_eq!(cpu.mem.read_byte(0xCFFF), 0x12);
    assert_eq!(cpu.mem.read_byte(0xFF0F), 0x02);
    assert!(!cpu.ime);
}

#[test]
fn halt_resumes_on_new_request() {
    let mut mem = FlatMemory::new(0x10000);
    mem.write_byte(0, 0x76);
    let mut cpu = Cpu::new(mem);
    cpu.ime = false;
    assert_eq!(cpu.step(), 1);
    assert!(cpu.halted);
    assert_eq!(cpu.step(), 1);
    assert!(cpu.halted);
    cpu.mem.write_byte(0xFF0F, 0x04);
    cpu.step();
    assert!(!cpu.halted);
}

#[test]
fn unknown_opcode_halts() {
    let mut mem = FlatMemory::new(0x10000);
    mem.write_byte(0, 0xDD);
    let mut cpu = Cpu::new(mem);
    assert_eq!(cpu.step(), 0);
    assert!(cpu.halted);
}

#[test]
fn cycles_never_decrease() {
    let mut cpu = Cpu::new(FlatMemory::new(0x10000));
    let mut last = cpu.cycles();
    for _ in 0..50 {
        cpu.step();
        assert!(cpu.cycles() >= last);
        last = cpu.cycles();
    }
    assert_eq!(last, 50);
}

#[test]
fn post_bios_registers() {
    let mut cpu = Cpu::new(FlatMemory::new(0x10000));
    cpu.post_bios();
    assert_eq!(cpu.regs.af(), 0x01B0);
    assert_eq!(cpu.regs.bc(), 0x0013);
    assert_eq!(cpu.regs.de(), 0x00D8);
    assert_eq!(cpu.regs.hl(), 0x014D);
    assert_eq!(cpu.regs.sp, 0xFFFE);
    assert_eq!(cpu.regs.pc, 0x0100);
}
