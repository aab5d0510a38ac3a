//! The keypad: its keys and the digit each key stands for.

use vstd::prelude::*;

verus! {

/// The keys on the ATM keypad.
#[derive(Clone, Copy, PartialEq, Eq, Structural, Debug)]
pub enum Key {
    One,
    Two,
    Three,
    Four,
    Enter,
}

impl Key {
    /// The decimal digit that a key stands for; `Enter` stands for none.
    pub open spec fn digit_value(self) -> Option<nat> {
        match self {
            Key::One => Some(1),
            Key::Two => Some(2),
            Key::Three => Some(3),
            Key::Four => Some(4),
            Key::Enter => None,
        }
    }

    /// The digit on the key, if it has one.
    pub fn digit(self) -> (digit: Option<u64>)
        ensures
            digit == match self.digit_value() {
                Some(value) => Some(value as u64),
                None => None,
            },
    {
        match self {
            Key::One => Some(1),
            Key::Two => Some(2),
            Key::Three => Some(3),
            Key::Four => Some(4),
            Key::Enter => None,
        }
    }
}

} // verus!
