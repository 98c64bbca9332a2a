//! Platform-neutral keyboard events.

use vstd::prelude::*;

verus! {

/// A key press, release or repeat.
#[derive(Clone, Copy, Debug, PartialEq, Eq, Structural)]
pub struct KeyboardEvent {
    pub key: KeyCode,
    pub modifiers: KeyModifiers,
    pub kind: KeyEventKind,
}

/// A key on the keyboard.
#[derive(Clone, Copy, Debug, PartialEq, Eq, Structural)]
pub enum KeyCode {
    Char(char),
    Enter,
    Tab,
    Backspace,
    Escape,
    Delete,
    Insert,
    Home,
    End,
    PageUp,
    PageDown,
    Up,
    Down,
    Left,
    Right,
    /// Function keys F1 to F12.
    F(u8),
    Null,
}

/// Modifier keys held during an event.
#[derive(Clone, Copy, Debug, PartialEq, Eq, Structural)]
pub struct KeyModifiers {
    pub ctrl: bool,
    pub alt: bool,
    pub shift: bool,
}

/// Whether a key was pressed, released or repeated.
#[derive(Clone, Copy, Debug, PartialEq, Eq, Structural)]
pub enum KeyEventKind {
    Press,
    Release,
    Repeat,
}

impl Default for KeyModifiers {
    fn default() -> (r: KeyModifiers)
        ensures
            r == (KeyModifiers { ctrl: false, alt: false, shift: false }),
    {
        KeyModifiers { ctrl: false, alt: false, shift: false }
    }
}

impl KeyboardEvent {
    /// An event for `key` with `modifiers` of the given kind.
    pub fn new(key: KeyCode, modifiers: KeyModifiers, kind: KeyEventKind) -> (r: KeyboardEvent)
        ensures
            r == (KeyboardEvent { key, modifiers, kind }),
    {
        KeyboardEvent { key, modifiers, kind }
    }

    /// A press of character `c` with no modifiers.
    pub fn char_press(c: char) -> (r: KeyboardEvent)
        ensures
            r == (KeyboardEvent {
                key: KeyCode::Char(c),
                modifiers: KeyModifiers { ctrl: false, alt: false, shift: false },
                kind: KeyEventKind::Press,
            }),
    {
        Self::new(KeyCode::Char(c), KeyModifiers::default(), KeyEventKind::Press)
    }

    /// A press of `key` with no modifiers.
    pub fn key_press(key: KeyCode) -> (r: KeyboardEvent)
        ensures
            r == (KeyboardEvent {
                key,
                modifiers: KeyModifiers { ctrl: false, alt: false, shift: false },
                kind: KeyEventKind::Press,
            }),
    {
        Self::new(key, KeyModifiers::default(), KeyEventKind::Press)
    }
}

impl KeyModifiers {
    /// No modifier held.
    pub fn new() -> (r: KeyModifiers)
        ensures
            r == (KeyModifiers { ctrl: false, alt: false, shift: false }),
    {
        Self::default()
    }

    /// Only Ctrl held.
    pub fn ctrl() -> (r: KeyModifiers)
        ensures
            r == (KeyModifiers { ctrl: true, alt: false, shift: false }),
    {
        KeyModifiers { ctrl: true, ..Self::default() }
    }

    /// Only Alt held.
    pub fn alt() -> (r: KeyModifiers)
        ensures
            r == (KeyModifiers { ctrl: false, alt: true, shift: false }),
    {
        KeyModifiers { alt: true, ..Self::default() }
    }

    /// Only Shift held.
    pub fn shift() -> (r: KeyModifiers)
        ensures
            r == (KeyModifiers { ctrl: false, alt: false, shift: true }),
    {
        KeyModifiers { shift: true, ..Self::default() }
    }

    /// Whether no modifier is held.
    pub fn is_empty(&self) -> (r: bool)
        ensures
            r == (!self.ctrl && !self.alt && !self.shift),
    {
        !self.ctrl && !self.alt && !self.shift
    }
}

} // verus!
