use vstd::prelude::*;
use crate::strings::same_str;

verus! {

/// The eight keys, as named by a front end.
#[derive(Copy, Clone, Debug, PartialEq, Eq, Structural)]
pub enum KeypadKey {
    Up,
    Down,
    Right,
    Left,
    A,
    B,
    Select,
    Start,
}

/// The key a name stands for.
pub open spec fn keypad_key_named(s: Seq<char>) -> Option<KeypadKey> {
    if s == "Up"@ {
        Some(KeypadKey::Up)
    } else if s == "Down"@ {
        Some(KeypadKey::Down)
    } else if s == "Right"@ {
        Some(KeypadKey::Right)
    } else if s == "Left"@ {
        Some(KeypadKey::Left)
    } else if s == "A"@ {
        Some(KeypadKey::A)
    } else if s == "B"@ {
        Some(KeypadKey::B)
    } else if s == "Select"@ {
        Some(KeypadKey::Select)
    } else if s == "Start"@ {
        Some(KeypadKey::Start)
    } else {
        None
    }
}

impl KeypadKey {
    /// The key of the given name, if it is one of the eight.
    pub fn from_str(symbol: &str) -> (r: Option<KeypadKey>)
        ensures
            r == keypad_key_named(symbol@),
    {
        if same_str(symbol, "Up") {
            Some(KeypadKey::Up)
        } else if same_str(symbol, "Down") {
            Some(KeypadKey::Down)
        } else if same_str(symbol, "Right") {
            Some(KeypadKey::Right)
        } else if same_str(symbol, "Left") {
            Some(KeypadKey::Left)
        } else if same_str(symbol, "A") {
            Some(KeypadKey::A)
        } else if same_str(symbol, "B") {
            Some(KeypadKey::B)
        } else if same_str(symbol, "Select") {
            Some(KeypadKey::Select)
        } else if same_str(symbol, "Start") {
            Some(KeypadKey::Start)
        } else {
            None
        }
    }
}

} // verus!
