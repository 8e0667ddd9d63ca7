//! Discrete keypad events and the interface a key source implements.

use vstd::prelude::*;

verus! {

/// One press on the handset's keypad, as delivered by an input source.
/// `Number(n)` always carries a digit `0..=9`; `valid` states that bound.
#[derive(Clone, Copy, Debug, PartialEq, Eq, Structural)]
pub enum UserInput {
    Number(u8),
    Star,
    Hash,
    Up,
    Down,
    SoftKey,
    Call,
    Power,
}

impl UserInput {
    /// A keypad digit never exceeds 9; every producer of `UserInput`
    /// guarantees this, and input handlers may rely on it.
    pub open spec fn valid(self) -> bool {
        match self {
            UserInput::Number(n) => n <= 9,
            _ => true,
        }
    }
}

/// A producer of keypad events, polled without blocking: `None` means no
/// event is pending right now.
pub trait InputModule {
    fn get_input(&mut self) -> Option<UserInput>;
}

/// The character a keypad digit prints as.
pub open spec fn spec_digit_char(d: u8) -> char {
    match d {
        0u8 => '0',
        1u8 => '1',
        2u8 => '2',
        3u8 => '3',
        4u8 => '4',
        5u8 => '5',
        6u8 => '6',
        7u8 => '7',
        8u8 => '8',
        _ => '9',
    }
}

/// Turns a keypad digit into the character it prints as.
pub fn digit_char(d: u8) -> (c: char)
    requires
        d <= 9,
    ensures
        c == spec_digit_char(d),
{
    match d {
        0u8 => '0',
        1u8 => '1',
        2u8 => '2',
        3u8 => '3',
        4u8 => '4',
        5u8 => '5',
        6u8 => '6',
        7u8 => '7',
        8u8 => '8',
        _ => '9',
    }
}

} // verus!
