use rustboylib::irq::{EmptyIrqHandler, MachineIrqHandler};
use rustboylib::joypad::JoypadKey::{Right, Start, Up, A};
use rustboylib::joypad::{
    Joypad, JoypadKey, JOYPAD_ADDRESS, JOYPAD_SELECT_BUTTON, JOYPAD_SELECT_DIRECTIONAL,
};
use rustboylib::keypad::KeypadKey;
use rustboylib::memory::Memory;

const JOYPAD_KEYS: [&str; 8] = ["Up", "Down", "Left", "Right", "Select", "Start", "A", "B"];

#[test]
fn test_keys_from_str() {
    assert_eq!(JoypadKey::from_string_slice("Up"), Some(Up));
    assert_eq!(JoypadKey::from_string_slice("Down"), Some(JoypadKey::Down));
    assert_eq!(JoypadKey::from_string_slice("Left"), Some(JoypadKey::Left));
    assert_eq!(JoypadKey::from_string_slice("Right"), Some(Right));
    assert_eq!(JoypadKey::from_string_slice("Select"), Some(JoypadKey::Select));
    assert_eq!(JoypadKey::from_string_slice("Start"), Some(Start));
    assert_eq!(JoypadKey::from_string_slice("A"), Some(A));
    assert_eq!(JoypadKey::from_string_slice("B"), Some(JoypadKey::B));
}

#[test]
fn unknown_key_name_is_none() {
    assert_eq!(JoypadKey::from_string_slice("Up "), None);
    assert_eq!(JoypadKey::from_string_slice(""), None);
    assert_eq!(KeypadKey::from_str("Select"), Some(KeypadKey::Select));
    assert_eq!(KeypadKey::from_str("X"), None);
}

#[test]
fn test_keys_down_and_up() {
    let mut irq_handler = EmptyIrqHandler;
    let mut joypad = Joypad::new();
    assert_eq!(joypad.read_byte(JOYPAD_ADDRESS), 0xF0);
    for key_str in JOYPAD_KEYS.iter() {
        joypad.key_down(&JoypadKey::from_string_slice(key_str).unwrap(), &mut irq_handler);
    }
    joypad.write_byte(JOYPAD_ADDRESS, JOYPAD_SELECT_DIRECTIONAL);
    assert_eq!(joypad.read_byte(JOYPAD_ADDRESS), 0xF0);
    joypad.write_byte(JOYPAD_ADDRESS, JOYPAD_SELECT_BUTTON);
    assert_eq!(joypad.read_byte(JOYPAD_ADDRESS), 0xF0);
    for key_str in JOYPAD_KEYS.iter() {
        joypad.key_up(&JoypadKey::from_string_slice(key_str).unwrap());
    }
    assert_eq!(joypad.read_byte(JOYPAD_ADDRESS), 0xFF);
    joypad.write_byte(JOYPAD_ADDRESS, JOYPAD_SELECT_DIRECTIONAL);
    assert_eq!(joypad.read_byte(JOYPAD_ADDRESS), 0xFF);
}

#[test]
fn test_key_sequence() {
    let mut irq_handler = EmptyIrqHandler;
    let mut joypad = Joypad::new();
    joypad.key_down(&Up, &mut irq_handler);
    joypad.key_down(&Right, &mut irq_handler);
    joypad.key_down(&A, &mut irq_handler);
    joypad.write_byte(JOYPAD_ADDRESS, JOYPAD_SELECT_DIRECTIONAL);
    assert_eq!(joypad.read_byte(JOYPAD_ADDRESS), 0xFA);
    joypad.write_byte(JOYPAD_ADDRESS, JOYPAD_SELECT_BUTTON);
    assert_eq!(joypad.read_byte(JOYPAD_ADDRESS), 0xFE);
    joypad.key_up(&Up);
    joypad.key_down(&Start, &mut irq_handler);
    assert_eq!(joypad.read_byte(JOYPAD_ADDRESS), 0xF6);
    joypad.write_byte(JOYPAD_ADDRESS, JOYPAD_SELECT_DIRECTIONAL);
    assert_eq!(joypad.read_byte(JOYPAD_ADDRESS), 0xFE);
    joypad.key_up(&Right);
    joypad.key_up(&A);
    joypad.key_up(&Start);
    assert_eq!(joypad.read_byte(JOYPAD_ADDRESS), 0xFF);
    joypad.write_byte(JOYPAD_ADDRESS, JOYPAD_SELECT_BUTTON);
    assert_eq!(joypad.read_byte(JOYPAD_ADDRESS), 0xFF);
}

#[test]
fn key_down_requests_joypad_interrupt() {
    let mut irq = MachineIrqHandler::new();
    let mut joypad = Joypad::new();
    joypad.key_down(&Start, &mut irq);
    assert_eq!(irq.if_reg, 0x10);
}
