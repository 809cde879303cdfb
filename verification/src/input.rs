//! Key presses, as the interface hands them to the state machine.

use vstd::prelude::*;

verus! {

/// The key of a key press.
#[derive(Clone, Copy, Debug, PartialEq, Eq, Structural)]
pub enum Key {
    /// A key that stands for a character.
    Char(char),
    Backspace,
    Enter,
    Left,
    Right,
    Up,
    Down,
    Tab,
    Delete,
    Insert,
    Home,
    End,
    PageUp,
    PageDown,
    Esc,
    /// Any other key. It is never acted upon.
    Null,
}

/// A key press: the key and the modifiers that were held with it.
#[derive(Clone, Copy, Debug, PartialEq, Eq, Structural)]
pub struct KeyInput {
    pub key: Key,
    /// Whether Ctrl was held.
    pub ctrl: bool,
    /// Whether Alt was held.
    pub alt: bool,
    /// Whether any other modifier was held, such as Shift.
    pub other: bool,
}

impl KeyInput {
    /// Whether this is the chord of Alt, and no other modifier, with the
    /// character `c`.
    pub open spec fn is_alt_chord(self, c: char) -> bool {
        self.key == Key::Char(c) && self.alt && !self.ctrl && !self.other
    }

    /// A key pressed without any modifier.
    pub fn plain(key: Key) -> (input: KeyInput)
        ensures
            input == (KeyInput { key, ctrl: false, alt: false, other: false }),
    {
        KeyInput { key, ctrl: false, alt: false, other: false }
    }

    /// The chord of Alt with the character `c`.
    pub fn alt_chord(c: char) -> (input: KeyInput)
        ensures
            input.is_alt_chord(c),
            input == (KeyInput { key: Key::Char(c), ctrl: false, alt: true, other: false }),
    {
        KeyInput { key: Key::Char(c), ctrl: false, alt: true, other: false }
    }

    /// Tells whether this is the chord of Alt, and no other modifier, with
    /// the character `c`.
    pub fn alt_with(&self, c: char) -> (chord: bool)
        ensures
            chord == self.is_alt_chord(c),
    {
        let same = match self.key {
            Key::Char(d) => d == c,
            _ => false,
        };
        same && self.alt && !self.ctrl && !self.other
    }
}

} // verus!
