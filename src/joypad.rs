use vstd::prelude::*;
use crate::irq::{Interrupt, IrqHandler};
use crate::memory::Memory;
use crate::strings::same_str;

verus! {

/// Address of the joypad register.
pub const JOYPAD_ADDRESS: u16 = 0xFF00;

/// Writing this bit pattern selects the direction keys.
pub const JOYPAD_SELECT_DIRECTIONAL: u8 = 0x10;

/// Writing this bit pattern selects the button keys.
pub const JOYPAD_SELECT_BUTTON: u8 = 0x20;

/// The eight keys of the console.
#[derive(Copy, Clone, Debug, PartialEq, Eq, Structural)]
pub enum JoypadKey {
    Up,
    Down,
    Right,
    Left,
    A,
    B,
    Select,
    Start,
}

/// The key a name stands for.
pub open spec fn key_named(s: Seq<char>) -> Option<JoypadKey> {
    if s == "Up"@ {
        Some(JoypadKey::Up)
    } else if s == "Down"@ {
        Some(JoypadKey::Down)
    } else if s == "Right"@ {
        Some(JoypadKey::Right)
    } else if s == "Left"@ {
        Some(JoypadKey::Left)
    } else if s == "A"@ {
        Some(JoypadKey::A)
    } else if s == "B"@ {
        Some(JoypadKey::B)
    } else if s == "Select"@ {
        Some(JoypadKey::Select)
    } else if s == "Start"@ {
        Some(JoypadKey::Start)
    } else {
        None
    }
}

impl JoypadKey {
    /// Whether the key sits in the direction row (else in the button row).
    pub open spec fn is_direction(self) -> bool {
        matches!(self, JoypadKey::Up | JoypadKey::Down | JoypadKey::Right | JoypadKey::Left)
    }

    /// The key's bit in its row.
    pub open spec fn bit(self) -> u8 {
        match self {
            JoypadKey::Down | JoypadKey::Start => 0x08,
            JoypadKey::Up | JoypadKey::Select => 0x04,
            JoypadKey::Left | JoypadKey::B => 0x02,
            JoypadKey::Right | JoypadKey::A => 0x01,
        }
    }

    /// The key of the given name, if it is one of the eight.
    pub fn from_string_slice(symbol: &str) -> (r: Option<JoypadKey>)
        ensures
            r == key_named(symbol@),
    {
        if same_str(symbol, "Up") {
            Some(JoypadKey::Up)
        } else if same_str(symbol, "Down") {
            Some(JoypadKey::Down)
        } else if same_str(symbol, "Right") {
            Some(JoypadKey::Right)
        } else if same_str(symbol, "Left") {
            Some(JoypadKey::Left)
        } else if same_str(symbol, "A") {
            Some(JoypadKey::A)
        } else if same_str(symbol, "B") {
            Some(JoypadKey::B)
        } else if same_str(symbol, "Select") {
            Some(JoypadKey::Select)
        } else if same_str(symbol, "Start") {
            Some(JoypadKey::Start)
        } else {
            None
        }
    }

    fn row_bit(&self) -> (r: u8)
        ensures
            r == self.bit(),
    {
        match *self {
            JoypadKey::Down | JoypadKey::Start => 0x08,
            JoypadKey::Up | JoypadKey::Select => 0x04,
            JoypadKey::Left | JoypadKey::B => 0x02,
            JoypadKey::Right | JoypadKey::A => 0x01,
        }
    }
}

/// The key matrix: two rows of four keys, a clear bit for a pressed key.
pub struct Joypad {
    /// The direction row (Down, Up, Left, Right from bit 3 to bit 0).
    pub directions: u8,
    /// The button row (Start, Select, B, A from bit 3 to bit 0).
    pub buttons: u8,
    /// The row selected for reading: 0 for none, 1 for the directions,
    /// 2 for the buttons.
    pub selection: u8,
}

impl Joypad {
    /// No key pressed, no row selected.
    pub fn new() -> (r: Joypad)
        ensures
            r.directions == 0x0F && r.buttons == 0x0F && r.selection == 0,
    {
        Joypad { directions: 0x0F, buttons: 0x0F, selection: 0 }
    }

    /// A key goes down: its bit is cleared and a Joypad interrupt requested.
    pub fn key_down<H: IrqHandler>(&mut self, key: &JoypadKey, irq_handler: &mut H)
        ensures
            key.is_direction() ==> *final(self) == (Joypad {
                directions: old(self).directions & !key.bit(),
                ..*old(self)
            }),
            !key.is_direction() ==> *final(self) == (Joypad {
                buttons: old(self).buttons & !key.bit(),
                ..*old(self)
            }),
            old(irq_handler).requested(Interrupt::Joypad, *final(irq_handler)),
    {
        let bit = key.row_bit();
        match *key {
            JoypadKey::Up | JoypadKey::Down | JoypadKey::Right | JoypadKey::Left => {
                self.directions = self.directions & !bit;
            },
            _ => {
                self.buttons = self.buttons & !bit;
            },
        }
        irq_handler.request_interrupt(Interrupt::Joypad);
    }

    /// A key goes up: its bit is set again.
    pub fn key_up(&mut self, key: &JoypadKey)
        ensures
            key.is_direction() ==> *final(self) == (Joypad {
                directions: old(self).directions | key.bit(),
                ..*old(self)
            }),
            !key.is_direction() ==> *final(self) == (Joypad {
                buttons: old(self).buttons | key.bit(),
                ..*old(self)
            }),
    {
        let bit = key.row_bit();
        match *key {
            JoypadKey::Up | JoypadKey::Down | JoypadKey::Right | JoypadKey::Left => {
                self.directions = self.directions | bit;
            },
            _ => {
                self.buttons = self.buttons | bit;
            },
        }
    }
}

/// The row that bits 4 and 5 of a written byte select.
pub open spec fn selection_of(byte: u8) -> u8 {
    if byte & 0x30 == 0x10 {
        1
    } else if byte & 0x30 == 0x20 {
        2
    } else {
        0
    }
}

impl Memory for Joypad {
    open spec fn read_value(&self, address: u16) -> u8 {
        0xF0 | if self.selection == 1 {
            self.directions
        } else if self.selection == 2 {
            self.buttons
        } else {
            0
        }
    }

    open spec fn written(&self, address: u16, byte: u8, post: Joypad) -> bool {
        post == Joypad { selection: selection_of(byte), ..*self }
    }

    fn read_byte(&mut self, address: u16) -> (r: u8) {
        // the unused high bits read as one
        0xF0 | if self.selection == 1 {
            self.directions
        } else if self.selection == 2 {
            self.buttons
        } else {
            0
        }
    }

    fn write_byte(&mut self, address: u16, byte: u8) {
        let bits = byte & 0x30;
        self.selection = if bits == 0x10 {
            1
        } else if bits == 0x20 {
            2
        } else {
            0
        };
    }
}

} // verus!
