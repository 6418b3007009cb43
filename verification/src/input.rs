//! Terminal-agnostic input events.

use vstd::prelude::*;

verus! {

/// What the terminal can tell a program: a key press, a mouse button, or the
/// size of the window.
#[derive(Debug, Copy, Clone, PartialEq, Eq, Hash)]
pub enum InputEvent {
    Key(Key),
    MouseButton(MouseButton),
    WindowSize { width: u16, height: u16 },
}

/// A mouse button.
#[derive(Debug, Copy, Clone, PartialEq, Eq, Hash)]
pub enum MouseButton {
    /// The left mouse button.
    Left,
    /// The right mouse button.
    Right,
    /// The middle mouse button.
    Middle,
    /// Mouse wheel is going up.
    WheelUp,
    /// Mouse wheel is going down.
    WheelDown,
}

/// A key.
#[derive(Debug, Copy, Clone, PartialEq, Eq, Hash)]
pub enum Key {
    /// Backspace.
    Backspace,
    /// Left arrow.
    Left,
    /// Right arrow.
    Right,
    /// Up arrow.
    Up,
    /// Down arrow.
    Down,
    /// Home key.
    Home,
    /// End key.
    End,
    /// Page Up key.
    PageUp,
    /// Page Down key.
    PageDown,
    /// Backward Tab key.
    BackTab,
    /// Delete key.
    Delete,
    /// Insert key.
    Insert,
    /// Function keys, 1 through 12.
    F(u8),
    /// Normal character.
    Char(char),
    /// Alt modified character.
    Alt(char),
    /// Ctrl modified character.
    Ctrl(char),
    /// Null byte.
    Null,
    /// Esc key.
    Esc,
    /// A key that has no terminal-agnostic name.
    Unsupported,
}

} // verus!
