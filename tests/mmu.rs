use rustboylib::cpu::Cpu;
use rustboylib::joypad::JoypadKey;
use rustboylib::mbc::{load_cartridge, Cartridge};
use rustboylib::memory::Memory;
use rustboylib::mmu::{MemoryManagementUnit, MMU};

fn cartridge(program: &[u8]) -> Cartridge {
    let mut data = vec![0u8; 0x8000];
    data[0x100..0x100 + program.len()].copy_from_slice(program);
    load_cartridge(data).unwrap()
}

#[test]
fn ram_writes_read_back() {
    let mut mmu = MMU::new(cartridge(&[]), false, true, Vec::new());
    for (a, v) in [(0xC000u16, 0x11u8), (0xDFFF, 0x22), (0xFF80, 0x33), (0xFFFE, 0x44), (0xE123, 0x55)] {
        mmu.write_byte(a, v);
        assert_eq!(mmu.read_byte(a), v);
    }
    // the echo mirrors work RAM
    assert_eq!(mmu.read_byte(0xC123), 0x55);
    // unusable area
    mmu.write_byte(0xFEA5, 0x66);
    assert_eq!(mmu.read_byte(0xFEA5), 0);
    // interrupt registers
    mmu.write_byte(0xFFFF, 0x1F);
    mmu.write_byte(0xFF0F, 0x03);
    assert_eq!(mmu.interrupt_enable(), 0x1F);
    assert_eq!(mmu.interrupt_flag(), 0x03);
}

#[test]
fn bios_overlay_until_0x100() {
    let mut bios = vec![0u8; 0x100];
    bios[0] = 0xAA;
    let mut mmu = MMU::new(cartridge(&[0x00]), false, false, bios);
    assert_eq!(mmu.read_byte(0x0000), 0xAA);
    mmu.fetch_at(0x00FF);
    assert_eq!(mmu.read_byte(0x0000), 0xAA);
    mmu.fetch_at(0x0100);
    assert_eq!(mmu.read_byte(0x0000), 0x00);
}

#[test]
fn frame_completion_scenario() {
    let mut mmu = MMU::new(cartridge(&[]), false, true, Vec::new());
    mmu.write_byte(0xFF40, 0x80);
    let mut vblanks = 0;
    let mut frames = 0;
    let mut total = 0u64;
    while total < 70224 {
        mmu.step(4);
        total += 4;
        if mmu.interrupt_flag() & 0x01 != 0 {
            vblanks += 1;
            mmu.set_interrupt_flag(0);
        }
        if let Some(frame) = mmu.frame_buffer() {
            assert_eq!(frame.len(), 160 * 144);
            frames += 1;
        }
    }
    assert_eq!(vblanks, 1);
    assert_eq!(frames, 1);
    assert_eq!(mmu.read_byte(0xFF44), 0);
    assert!(mmu.frame_buffer().is_none());
}

#[test]
fn joypad_through_bus() {
    let mut mmu = MMU::new(cartridge(&[]), false, true, Vec::new());
    mmu.key_down(&JoypadKey::A);
    assert_eq!(mmu.read_byte(0xFF0F) & 0x10, 0x10);
    mmu.write_byte(0xFF00, 0x20);
    assert_eq!(mmu.read_byte(0xFF00), 0xFE);
    mmu.key_up(&JoypadKey::A);
    assert_eq!(mmu.read_byte(0xFF00), 0xFF);
}

#[test]
fn serial_transfer_collects_bytes() {
    let mut mmu = MMU::new(cartridge(&[]), false, true, Vec::new());
    mmu.write_byte(0xFF01, b'o');
    mmu.write_byte(0xFF02, 0x81);
    mmu.write_byte(0xFF01, b'k');
    mmu.write_byte(0xFF02, 0x80);
    mmu.write_byte(0xFF02, 0x81);
    assert_eq!(mmu.take_serial_output(), b"ok".to_vec());
    assert!(mmu.take_serial_output().is_empty());
}

#[test]
fn cpu_runs_cartridge_program() {
    // LD A,0x42 ; LD (0xC000),A ; HALT
    let program = [0x3E, 0x42, 0xEA, 0x00, 0xC0, 0x76];
    let mmu = MMU::new(cartridge(&program), false, true, Vec::new());
    let mut cpu = Cpu::new(mmu);
    cpu.post_bios();
    cpu.ime = false;
    for _ in 0..3 {
        cpu.step();
    }
    assert!(cpu.halted);
    assert_eq!(cpu.mem.read_byte(0xC000), 0x42);
    assert_eq!(cpu.cycles(), 2 + 4 + 1);
}

#[test]
fn oam_dma_copies_a_page() {
    let mut mmu = MMU::new(cartridge(&[]), false, true, Vec::new());
    for i in 0..160u16 {
        mmu.write_byte(0xC100 + i, (i * 3) as u8);
    }
    mmu.write_byte(0xFF46, 0xC1);
    for i in 0..160u16 {
        assert_eq!(mmu.read_byte(0xFE00 + i), (i * 3) as u8);
    }
}
