use rustboylib::irq::MachineIrqHandler;
use rustboylib::memory::Memory;
use rustboylib::mmu::timers::Timers;

#[test]
fn timer_overflow_scenario() {
    let mut timers = Timers::new();
    let mut irq = MachineIrqHandler::new();
    timers.write_byte(0xFF06, 0x42);
    timers.write_byte(0xFF07, 0x05);
    timers.write_byte(0xFF05, 0xFE);
    timers.cycle(16, &mut irq);
    assert_eq!(timers.read_byte(0xFF05), 0xFF);
    assert_eq!(irq.if_reg, 0);
    timers.cycle(16, &mut irq);
    assert_eq!(timers.read_byte(0xFF05), 0x42);
    assert_eq!(irq.if_reg, 0x04);
    timers.cycle(16, &mut irq);
    assert_eq!(timers.read_byte(0xFF05), 0x43);
    assert_eq!(irq.if_reg, 0x04);
}

#[test]
fn timer_overflow_in_one_call() {
    let mut timers = Timers::new();
    let mut irq = MachineIrqHandler::new();
    timers.write_byte(0xFF06, 0x42);
    timers.write_byte(0xFF07, 0x05);
    timers.write_byte(0xFF05, 0xFE);
    timers.cycle(48, &mut irq);
    assert_eq!(timers.read_byte(0xFF05), 0x43);
    assert_eq!(irq.if_reg, 0x04);
}

#[test]
fn divider_counts_and_resets() {
    let mut timers = Timers::new();
    let mut irq = MachineIrqHandler::new();
    timers.cycle(255, &mut irq);
    assert_eq!(timers.read_byte(0xFF04), 0);
    timers.cycle(1, &mut irq);
    assert_eq!(timers.read_byte(0xFF04), 1);
    timers.cycle(256 * 3, &mut irq);
    assert_eq!(timers.read_byte(0xFF04), 4);
    timers.write_byte(0xFF04, 0x77);
    assert_eq!(timers.read_byte(0xFF04), 0);
    assert_eq!(irq.if_reg, 0);
}

#[test]
fn disabled_timer_does_not_count() {
    let mut timers = Timers::new();
    let mut irq = MachineIrqHandler::new();
    timers.write_byte(0xFF07, 0x01);
    timers.write_byte(0xFF05, 0x10);
    timers.cycle(1000, &mut irq);
    assert_eq!(timers.read_byte(0xFF05), 0x10);
    assert_eq!(timers.read_byte(0xFF07), 0x01);
}

#[test]
fn rate_change_reloads_counter() {
    let mut timers = Timers::new();
    let mut irq = MachineIrqHandler::new();
    timers.write_byte(0xFF06, 0x20);
    timers.write_byte(0xFF05, 0x99);
    timers.write_byte(0xFF07, 0x06);
    assert_eq!(timers.read_byte(0xFF05), 0x20);
    timers.cycle(64 * 3, &mut irq);
    assert_eq!(timers.read_byte(0xFF05), 0x23);
    // same rate again: no reload
    timers.write_byte(0xFF07, 0x02);
    assert_eq!(timers.read_byte(0xFF05), 0x23);
}
