//! Keyboard input while the terminal is in raw mode: which keystroke ends
//! the monitoring loop.
//!
//! One key cancels: [`CANCEL_KEY`]. Every other key is left alone. A
//! terminal in raw mode does not raise the process interrupt for the
//! interrupt chord; it hands the chord in with the other input, where it is
//! told apart from all keys and taken for the interrupt it is.

use vstd::prelude::*;

verus! {

/// The key that cancels the loop.
pub const CANCEL_KEY: char = 'q';

/// What a non-blocking look at the terminal found.
#[derive(Clone, Copy, Debug, PartialEq, Eq, Structural)]
pub enum KeyPress {
    /// Nothing was pending.
    Idle,
    /// A character key, pressed by itself.
    Char(char),
    /// The interrupt chord (the control key with `c`).
    Interrupt,
    /// Any other key, chord or terminal event.
    Other,
}

/// What a look at the terminal asks of the monitoring loop.
#[derive(Clone, Copy, Debug, PartialEq, Eq, Structural)]
pub enum KeyAction {
    /// Nothing: the loop goes on.
    Ignore,
    /// The user pressed the cancel key.
    Quit,
    /// The user's interrupt came in through the keyboard.
    Interrupt,
}

/// What `key` asks for: the cancel key quits, the interrupt chord
/// interrupts, and nothing else is a request at all.
pub open spec fn key_action(key: KeyPress) -> KeyAction {
    match key {
        KeyPress::Char(c) => if c == CANCEL_KEY {
            KeyAction::Quit
        } else {
            KeyAction::Ignore
        },
        KeyPress::Interrupt => KeyAction::Interrupt,
        _ => KeyAction::Ignore,
    }
}

/// What `key` asks of the loop.
pub fn classify(key: KeyPress) -> (result: KeyAction)
    ensures
        result == key_action(key),
        result == KeyAction::Quit <==> key == KeyPress::Char(CANCEL_KEY),
        result == KeyAction::Interrupt <==> key == KeyPress::Interrupt,
{
    match key {
        KeyPress::Char(c) => {
            if c == CANCEL_KEY {
                KeyAction::Quit
            } else {
                KeyAction::Ignore
            }
        },
        KeyPress::Interrupt => KeyAction::Interrupt,
        _ => KeyAction::Ignore,
    }
}

/// No key but the cancel key ends the loop: whatever character is pressed,
/// and whatever else the terminal reports short of the interrupt chord, is
/// ignored.
pub proof fn law_only_the_cancel_key_quits(key: KeyPress)
    ensures
        key_action(key) == KeyAction::Quit <==> key == KeyPress::Char(CANCEL_KEY),
        key matches KeyPress::Char(c) && c != CANCEL_KEY ==> key_action(key) == KeyAction::Ignore,
        key == KeyPress::Idle || key == KeyPress::Other ==> key_action(key) == KeyAction::Ignore,
{
}

} // verus!
