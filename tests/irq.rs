use rustboylib::irq::Interrupt;
use rustboylib::irq::Interrupt::{Joypad, Serial, Timer, LCD_Stat, V_Blank};
use rustboylib::irq::{IrqHandler, MachineIrqHandler};

#[test]
fn test_irq_address() {
    assert_eq!(V_Blank.address(), 0x40);
    assert_eq!(LCD_Stat.address(), 0x48);
    assert_eq!(Timer.address(), 0x50);
    assert_eq!(Serial.address(), 0x58);
    assert_eq!(Joypad.address(), 0x60);
}

#[test]
fn test_irq_from_u8() {
    assert_eq!(Interrupt::from_u8(1 << 0), Some(V_Blank));
    assert_eq!(Interrupt::from_u8(1 << 1), Some(LCD_Stat));
    assert_eq!(Interrupt::from_u8(1 << 2), Some(Timer));
    assert_eq!(Interrupt::from_u8(1 << 3), Some(Serial));
    assert_eq!(Interrupt::from_u8(1 << 4), Some(Joypad));
    assert_eq!(Interrupt::from_u8(0x03), None);
    assert_eq!(Interrupt::from_u8(0x00), None);
}

#[test]
fn request_sets_flag_bit() {
    let mut irq = MachineIrqHandler::new();
    irq.request_interrupt(Timer);
    irq.request_interrupt(Joypad);
    assert_eq!(irq.if_reg, 0x14);
    assert_eq!(irq.ie_reg, 0);
}
