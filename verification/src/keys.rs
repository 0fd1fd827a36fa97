//! Key presses, as far as the screens of this crate tell them apart.

use vstd::prelude::*;

verus! {

/// The key that was pressed.
#[derive(Debug, Clone, Copy, PartialEq, Eq, Structural)]
pub enum KeyCode {
    /// A key that types this character.
    Char(char),
    /// The backspace key.
    Backspace,
    /// The enter key.
    Enter,
    /// The escape key.
    Esc,
    /// The up arrow.
    Up,
    /// The down arrow.
    Down,
    /// The left arrow.
    Left,
    /// The right arrow.
    Right,
    /// Any other key.
    Other,
}

/// The modifier keys held with a key.
#[derive(Debug, Clone, Copy, PartialEq, Eq, Structural)]
pub enum Modifiers {
    /// No modifier is held.
    Unmodified,
    /// The control key is held and no other modifier.
    Control,
    /// Any other modifier or combination of modifiers.
    Other,
}

/// What happened to the key.
#[derive(Debug, Clone, Copy, PartialEq, Eq, Structural)]
pub enum KeyKind {
    /// The key went down.
    Press,
    /// The key is held and repeats.
    Repeat,
    /// The key went up.
    Release,
}

/// One key event.
#[derive(Debug, Clone, Copy, PartialEq, Eq, Structural)]
pub struct Key {
    /// The key.
    pub code: KeyCode,
    /// The modifiers held with it.
    pub modifiers: Modifiers,
    /// Whether it went down, repeats or went up.
    pub kind: KeyKind,
}

impl Key {
    /// Whether the event is this character typed with the control key and
    /// nothing else held.
    pub open spec fn is_control(self, c: char) -> bool {
        self.modifiers == Modifiers::Control && self.code == KeyCode::Char(c)
    }

    /// Whether no modifier is held.
    pub open spec fn is_plain(self) -> bool {
        self.modifiers == Modifiers::Unmodified
    }

    /// A press of `code` with no modifier held.
    pub fn plain(code: KeyCode) -> (key: Key)
        ensures
            key == (Key { code, modifiers: Modifiers::Unmodified, kind: KeyKind::Press }),
    {
        Key { code, modifiers: Modifiers::Unmodified, kind: KeyKind::Press }
    }

    /// A press of the key that types `c`, with the control key held.
    pub fn control(c: char) -> (key: Key)
        ensures
            key == (Key {
                code: KeyCode::Char(c),
                modifiers: Modifiers::Control,
                kind: KeyKind::Press,
            }),
    {
        Key { code: KeyCode::Char(c), modifiers: Modifiers::Control, kind: KeyKind::Press }
    }

    /// Whether the event is this character typed with the control key and
    /// nothing else held.
    pub fn holds_control(&self, c: char) -> (b: bool)
        ensures
            b == self.is_control(c),
    {
        self.modifiers == Modifiers::Control && self.code == KeyCode::Char(c)
    }
}

/// Whether the event loop goes on after a key.
#[derive(Debug, Clone, Copy, PartialEq, Eq, Structural)]
pub enum Flow {
    /// The loop goes on.
    Continue,
    /// The program ends.
    Quit,
}

} // verus!
