//! Key events as the form sees them, independent of any terminal library.
use vstd::prelude::*;

verus! {

/// The logical key that was pressed.
#[derive(Debug, Clone, Copy, PartialEq, Eq, Structural)]
pub enum KeyCode {
    Char(char),
    Left,
    Right,
    Up,
    Down,
    Enter,
    Esc,
    Tab,
    BackTab,
    Backspace,
    Delete,
    /// Any key the form has no use for.
    Other,
}

/// A key press: its code, and whether Control was the only modifier held.
#[derive(Debug, Clone, Copy, PartialEq, Eq, Structural)]
pub struct KeyEvent {
    pub code: KeyCode,
    pub ctrl: bool,
}

impl KeyEvent {
    /// A press of `code` with no modifier.
    pub fn plain(code: KeyCode) -> (r: Self)
        ensures
            r == (KeyEvent { code, ctrl: false }),
    {
        KeyEvent { code, ctrl: false }
    }

    /// A press of `c` with Control held.
    pub fn control(c: char) -> (r: Self)
        ensures
            r == (KeyEvent { code: KeyCode::Char(c), ctrl: true }),
    {
        KeyEvent { code: KeyCode::Char(c), ctrl: true }
    }
}

} // verus!
