use vstd::prelude::*;

verus! {

/// An abstract, already-decoded key press, independent of any raw terminal
/// encoding. Only `Char`, `Backspace`, `Delete`, `Left`, `Right` and `Enter`
/// are meaningful to the line editor; the remaining variants are accepted and
/// leave its state unchanged.
#[derive(Debug, PartialOrd, PartialEq, Eq, Clone, Copy, Hash)]
pub enum KeyCode {
    Backspace,
    Enter,
    Left,
    Right,
    Up,
    Down,
    Home,
    End,
    PageUp,
    PageDown,
    Tab,
    BackTab,
    Delete,
    Insert,
    Char(char),
    Null,
    Esc,
}

impl core::convert::From<char> for KeyCode {
    /// Wraps a plain character as a character key press.
    fn from(c: char) -> (r: Self) {
        KeyCode::Char(c)
    }
}

impl vstd::std_specs::convert::FromSpecImpl<char> for KeyCode {
    open spec fn obeys_from_spec() -> bool {
        true
    }

    open spec fn from_spec(c: char) -> KeyCode {
        KeyCode::Char(c)
    }
}

} // verus!
