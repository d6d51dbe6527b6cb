//! Terminal input as plain values: what a key press or a pointer event
//! carries, independent of the terminal backend that reported it.

use vstd::prelude::*;

verus! {

/// The key that an event names.
#[derive(Clone, Copy, Debug, PartialEq, Eq, Hash, Structural)]
pub enum KeyCode {
    Backspace,
    Enter,
    Left,
    Right,
    Up,
    Down,
    Home,
    End,
    PageUp,
    PageDown,
    Tab,
    BackTab,
    Delete,
    Insert,
    F(u8),
    Char(char),
    Null,
    Esc,
}

/// The modifier keys held down while an event happened.
#[derive(Clone, Copy, Debug, PartialEq, Eq, Hash, Structural)]
pub struct KeyModifiers {
    pub shift: bool,
    pub control: bool,
    pub alt: bool,
}

/// Whether a key went down, is being held, or came up.
#[derive(Clone, Copy, Debug, PartialEq, Eq, Hash, Structural)]
pub enum KeyEventKind {
    Press,
    Repeat,
    Release,
}

/// One keyboard event.
#[derive(Clone, Copy, Debug, PartialEq, Eq, Hash, Structural)]
pub struct KeyEvent {
    pub code: KeyCode,
    pub modifiers: KeyModifiers,
    pub kind: KeyEventKind,
}

#[derive(Clone, Copy, Debug, PartialEq, Eq, Hash, Structural)]
pub enum MouseButton {
    Left,
    Right,
    Middle,
}

/// What the pointer did.
#[derive(Clone, Copy, Debug, PartialEq, Eq, Hash, Structural)]
pub enum MouseEventKind {
    Down(MouseButton),
    Up(MouseButton),
    Drag(MouseButton),
    Moved,
    ScrollDown,
    ScrollUp,
    ScrollLeft,
    ScrollRight,
}

/// One pointer event, with the cell it happened on.
#[derive(Clone, Copy, Debug, PartialEq, Eq, Hash, Structural)]
pub struct MouseEvent {
    pub kind: MouseEventKind,
    pub column: u16,
    pub row: u16,
    pub modifiers: KeyModifiers,
}

impl KeyModifiers {
    /// No modifier key held.
    pub fn none() -> (m: KeyModifiers)
        ensures
            m == (KeyModifiers { shift: false, control: false, alt: false }),
    {
        KeyModifiers { shift: false, control: false, alt: false }
    }
}

impl KeyEvent {
    /// A press of `code` with the given modifiers.
    pub fn new(code: KeyCode, modifiers: KeyModifiers) -> (key: KeyEvent)
        ensures
            key == (KeyEvent { code, modifiers, kind: KeyEventKind::Press }),
    {
        KeyEvent { code, modifiers, kind: KeyEventKind::Press }
    }

    /// A press of `code` with no modifier held.
    pub fn press(code: KeyCode) -> (key: KeyEvent)
        ensures
            key == (KeyEvent {
                code,
                modifiers: KeyModifiers { shift: false, control: false, alt: false },
                kind: KeyEventKind::Press,
            }),
    {
        KeyEvent { code, modifiers: KeyModifiers::none(), kind: KeyEventKind::Press }
    }

    pub open spec fn spec_is_press(self) -> bool {
        self.kind == KeyEventKind::Press
    }

    /// Whether the key went down (neither a repeat nor a release).
    #[verifier::when_used_as_spec(spec_is_press)]
    pub fn is_press(self) -> (b: bool)
        ensures
            b == self.spec_is_press(),
    {
        self.kind == KeyEventKind::Press
    }
}

impl MouseEvent {
    pub open spec fn spec_is_down(self) -> bool {
        self.kind is Down
    }

    /// Whether a button went down.
    #[verifier::when_used_as_spec(spec_is_down)]
    pub fn is_down(self) -> (b: bool)
        ensures
            b == self.spec_is_down(),
    {
        match self.kind {
            MouseEventKind::Down(_) => true,
            _ => false,
        }
    }

    pub open spec fn spec_position(self) -> crate::geometry::Position {
        crate::geometry::Position { x: self.column, y: self.row }
    }

    /// The cell the pointer was on.
    #[verifier::when_used_as_spec(spec_position)]
    pub fn position(self) -> (p: crate::geometry::Position)
        ensures
            p == self.spec_position(),
    {
        crate::geometry::Position { x: self.column, y: self.row }
    }
}

} // verus!
