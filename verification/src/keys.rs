//! Key presses as the views receive them.
use vstd::prelude::*;

verus! {

/// The modifier keys held with a key press. A press with modifiers other
/// than none, shift alone or control alone is `OtherModifiers`.
#[derive(Clone, Copy, Debug, PartialEq, Eq, Structural)]
pub enum Modifiers {
    NoModifier,
    Shift,
    Control,
    OtherModifiers,
}

/// The key that was pressed.
#[derive(Clone, Copy, Debug, PartialEq, Eq, Structural)]
pub enum KeyCode {
    Char(char),
    Enter,
    Esc,
    Backspace,
    Tab,
    BackTab,
    Up,
    Down,
    Left,
    Right,
    OtherKey,
}

/// A key press: the key and the modifiers held with it.
#[derive(Clone, Copy, Debug, PartialEq, Eq, Structural)]
pub struct Key {
    pub modifiers: Modifiers,
    pub code: KeyCode,
}

impl Key {
    /// A key press with the given modifiers and key.
    pub fn new(modifiers: Modifiers, code: KeyCode) -> (k: Key)
        ensures
            k.modifiers == modifiers,
            k.code == code,
    {
        Key { modifiers, code }
    }

    /// A key pressed with no modifier.
    pub open spec fn is_plain(self, code: KeyCode) -> bool {
        self.modifiers == Modifiers::NoModifier && self.code == code
    }

    /// A key pressed with shift alone.
    pub open spec fn is_shifted(self, code: KeyCode) -> bool {
        self.modifiers == Modifiers::Shift && self.code == code
    }

    /// A key pressed with control alone.
    pub open spec fn is_control(self, code: KeyCode) -> bool {
        self.modifiers == Modifiers::Control && self.code == code
    }
}

} // verus!
