//! User inputs, and how the keys typed by the user are read

use vstd::prelude::*;

verus! {

/// An input of the user, as the controls interpret it
#[derive(PartialEq, Eq, Structural, Debug, Copy, Clone)]
pub enum Input {
    Exit,
    NoInput,
    Left,
    Right,
    Up,
    Down,
    G,
    AltLeft,
    AltRight,
    AltUp,
    AltDown,
    S,
    Escape,
    Submit,
}

/// A key typed by the user, as the terminal reports it
#[derive(PartialEq, Eq, Structural, Debug, Copy, Clone)]
pub enum Key {
    /// A character typed while the control key was held
    Ctrl(char),
    /// A character typed alone
    Char(char),
    /// Any other key
    Other,
}

/// Ctrl-C and Ctrl-D ask to exit the application; the other keys have no effect
pub open spec fn spec_input_from_key(key: Key) -> Input {
    match key {
        Key::Ctrl(c) => if c == 'c' || c == 'd' {
            Input::Exit
        } else {
            Input::NoInput
        },
        _ => Input::NoInput,
    }
}

/// Interprets a key typed by the user
pub fn input_from_key(key: Key) -> (i: Input)
    ensures
        i == spec_input_from_key(key),
{
    match key {
        Key::Ctrl(c) => {
            if c == 'c' || c == 'd' {
                Input::Exit
            } else {
                Input::NoInput
            }
        },
        _ => Input::NoInput,
    }
}

} // verus!
