use vstd::prelude::*;

verus! {

/// A key of the keyboard, as the editor's key handlers see it.
#[derive(Clone, Copy, Debug, PartialEq, Eq, Structural)]
pub enum KeyCode {
    Backspace,
    Enter,
    Left,
    Right,
    Up,
    Down,
    Home,
    End,
    PageUp,
    PageDown,
    Tab,
    BackTab,
    Delete,
    Insert,
    F(u8),
    Char(char),
    Null,
    Esc,
    /// Any key that the handlers do not tell apart.
    Other,
}

/// Whether a key went down, repeats while held, or went up.
#[derive(Clone, Copy, Debug, PartialEq, Eq, Structural)]
pub enum KeyEventKind {
    Press,
    Repeat,
    Release,
}

/// The modifier keys held with a key, one bit each.
#[derive(Clone, Copy, Debug, PartialEq, Eq, Structural)]
pub struct KeyModifiers(pub u8);

impl KeyModifiers {
    pub fn none() -> (modifiers: Self)
        ensures
            modifiers.0 == 0,
    {
        KeyModifiers(0)
    }

    pub fn shift() -> (modifiers: Self)
        ensures
            modifiers.0 == 1,
    {
        KeyModifiers(1)
    }

    pub fn control() -> (modifiers: Self)
        ensures
            modifiers.0 == 2,
    {
        KeyModifiers(2)
    }

    pub fn alt() -> (modifiers: Self)
        ensures
            modifiers.0 == 4,
    {
        KeyModifiers(4)
    }

    pub fn super_key() -> (modifiers: Self)
        ensures
            modifiers.0 == 8,
    {
        KeyModifiers(8)
    }

    pub fn hyper() -> (modifiers: Self)
        ensures
            modifiers.0 == 16,
    {
        KeyModifiers(16)
    }

    pub fn meta() -> (modifiers: Self)
        ensures
            modifiers.0 == 32,
    {
        KeyModifiers(32)
    }

    /// Every bit of `other` is set in `self`.
    pub open spec fn spec_contains(self, other: KeyModifiers) -> bool {
        self.0 & other.0 == other.0
    }

    pub fn contains(self, other: KeyModifiers) -> (all: bool)
        ensures
            all == self.spec_contains(other),
    {
        self.0 & other.0 == other.0
    }
}

/// A key with its modifiers and kind.
#[derive(Clone, Copy, Debug, PartialEq, Eq, Structural)]
pub struct KeyEvent {
    pub code: KeyCode,
    pub modifiers: KeyModifiers,
    pub kind: KeyEventKind,
}

impl KeyEvent {
    /// A key press with `modifiers`.
    pub fn new(code: KeyCode, modifiers: KeyModifiers) -> (event: Self)
        ensures
            event == (KeyEvent { code, modifiers, kind: KeyEventKind::Press }),
    {
        KeyEvent { code, modifiers, kind: KeyEventKind::Press }
    }

    pub fn new_with_kind(code: KeyCode, modifiers: KeyModifiers, kind: KeyEventKind) -> (event:
        Self)
        ensures
            event == (KeyEvent { code, modifiers, kind }),
    {
        KeyEvent { code, modifiers, kind }
    }
}

} // verus!
