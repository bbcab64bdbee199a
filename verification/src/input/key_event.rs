//! Terminal key events, as the application state machine reads them.

use vstd::prelude::*;

verus! {

/// The key of a terminal key event. Keys that the application gives no
/// meaning to are `Other`.
#[derive(Debug, Clone, Copy, PartialEq, Eq, Structural)]
pub enum KeyCode {
    Char(char),
    Enter,
    Tab,
    Esc,
    Backspace,
    Up,
    Down,
    Left,
    Right,
    F(u8),
    Other,
}

/// The modifier keys held during a terminal key event.
#[derive(Debug, Clone, Copy, PartialEq, Eq, Structural)]
pub struct KeyModifiers {
    pub control: bool,
    pub alt: bool,
    pub shift: bool,
    pub super_key: bool,
}

impl KeyModifiers {
    /// No modifier held.
    pub fn none() -> (m: Self)
        ensures
            !m.control && !m.alt && !m.shift && !m.super_key,
    {
        KeyModifiers { control: false, alt: false, shift: false, super_key: false }
    }
}

/// A terminal key event.
#[derive(Debug, Clone, Copy, PartialEq, Eq, Structural)]
pub struct KeyEvent {
    pub code: KeyCode,
    pub modifiers: KeyModifiers,
}

impl KeyEvent {
    /// An event for `code` with `modifiers` held.
    pub fn new(code: KeyCode, modifiers: KeyModifiers) -> (e: Self)
        ensures
            e.code == code,
            e.modifiers == modifiers,
    {
        KeyEvent { code, modifiers }
    }
}

} // verus!
