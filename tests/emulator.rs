use rustboylib::cpu::Cpu;
use rustboylib::emulator::{BackendMessage, EmulationLoop, LoopAction, FRAME_CYCLES};
use rustboylib::joypad::JoypadKey;
use rustboylib::mbc::load_cartridge;
use rustboylib::memory::Memory;
use rustboylib::mmu::MMU;

fn machine() -> Cpu<MMU> {
    let mut data = vec![0u8; 0x8000];
    // JR -2 at 0x100: loop forever
    data[0x100] = 0x18;
    data[0x101] = 0xFE;
    let mut cpu = Cpu::new(MMU::new(load_cartridge(data).unwrap(), false, true, Vec::new()));
    cpu.post_bios();
    cpu.ime = false;
    cpu
}

#[test]
fn messages_drive_the_loop() {
    let mut cpu = machine();
    let mut driver = EmulationLoop::new();
    assert_eq!(driver.on_message(&mut cpu, BackendMessage::UpdateRunStatus(false)), LoopAction::Continue);
    assert!(!driver.running);
    assert!(driver.run_frame(&mut cpu).is_none());
    assert_eq!(cpu.cycles(), 0);
    assert_eq!(driver.on_message(&mut cpu, BackendMessage::Step), LoopAction::Continue);
    assert_eq!(cpu.cycles(), 3);
    assert_eq!(driver.on_message(&mut cpu, BackendMessage::KeyDown(JoypadKey::B)), LoopAction::Continue);
    cpu.mem.write_byte(0xFF00, 0x20);
    assert_eq!(cpu.mem.read_byte(0xFF00), 0xFD);
    assert_eq!(driver.on_message(&mut cpu, BackendMessage::KeyUp(JoypadKey::B)), LoopAction::Continue);
    assert_eq!(cpu.mem.read_byte(0xFF00), 0xFF);
    assert_eq!(driver.on_message(&mut cpu, BackendMessage::Reset), LoopAction::Reset);
    assert_eq!(driver.on_message(&mut cpu, BackendMessage::Quit), LoopAction::Finish);
    assert!(!driver.running);
}

#[test]
fn running_frames_yields_displays() {
    let mut cpu = machine();
    cpu.mem.write_byte(0xFF40, 0x80);
    let mut driver = EmulationLoop::new();
    let mut frames = 0;
    for _ in 0..3 {
        if driver.run_frame(&mut cpu).is_some() {
            frames += 1;
        }
        assert!(driver.ticks < FRAME_CYCLES);
    }
    assert!(frames >= 2);
    assert!(cpu.cycles() >= 3 * FRAME_CYCLES);
}
