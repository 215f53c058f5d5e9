//! The events that the readers hand out.

use vstd::prelude::*;

verus! {

/// A key that was pressed.
#[derive(Clone, Copy, Debug, PartialEq, Eq, Structural, Hash)]
pub enum KeyEvent {
    Backspace,
    Enter,
    Left,
    Right,
    Up,
    Down,
    Home,
    End,
    PageUp,
    PageDown,
    Tab,
    BackTab,
    Delete,
    Insert,
    /// A function key, by its number.
    F(u8),
    Char(char),
    Alt(char),
    Ctrl(char),
    Null,
    Esc,
    CtrlUp,
    CtrlDown,
    CtrlRight,
    CtrlLeft,
    ShiftUp,
    ShiftDown,
    ShiftRight,
    ShiftLeft,
}

/// A mouse button.
#[derive(Clone, Copy, Debug, PartialEq, Eq, Structural, Hash)]
pub enum MouseButton {
    Left,
    Right,
    Middle,
    WheelUp,
    WheelDown,
}

/// A mouse event, with the column and row where it happened.
#[derive(Clone, Copy, Debug, PartialEq, Eq, Structural, Hash)]
pub enum MouseEvent {
    Press(MouseButton, u16, u16),
    Release(u16, u16),
    Hold(u16, u16),
    Unknown,
}

/// An event that a user of the library reads.
#[derive(Clone, Copy, Debug, PartialEq, Eq, Structural, Hash)]
pub enum Event {
    Key(KeyEvent),
    Mouse(MouseEvent),
    Unknown,
}

/// An event as the readers see it: a user event, or a report of the cursor
/// position (column, row) that the terminal sends in reply to a request.
#[derive(Clone, Copy, Debug, PartialEq, Eq, Structural, Hash)]
pub enum InternalEvent {
    Event(Event),
    CursorPosition(u16, u16),
}

impl InternalEvent {
    /// The user event this is, if it is one; cursor position reports are not.
    pub fn user_event(&self) -> (e: Option<Event>)
        ensures
            e == (match *self {
                InternalEvent::Event(ev) => Some(ev),
                InternalEvent::CursorPosition(..) => None,
            }),
    {
        match self {
            InternalEvent::Event(ev) => Some(*ev),
            InternalEvent::CursorPosition(..) => None,
        }
    }
}

} // verus!
