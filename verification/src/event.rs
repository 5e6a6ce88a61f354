//! Input events as the state machine reads them, and what it asks of the main
//! loop in return.

use vstd::prelude::*;

verus! {

/// The key of a keyboard event.
#[derive(Clone, Copy, Debug, PartialEq, Eq, Structural)]
pub enum KeyCode {
    Char(char),
    Enter,
    Esc,
    Backspace,
    Left,
    Right,
    Up,
    Down,
    PageUp,
    PageDown,
    Home,
    End,
    /// Any key that the dashboard has no use for.
    Other,
}

/// Whether a key went down, is held, or came up.
#[derive(Clone, Copy, Debug, PartialEq, Eq, Structural)]
pub enum KeyEventKind {
    Press,
    Repeat,
    Release,
}

/// What the mouse did.
#[derive(Clone, Copy, Debug, PartialEq, Eq, Structural)]
pub enum MouseEventKind {
    ScrollDown,
    ScrollUp,
    ScrollLeft,
    ScrollRight,
    /// Buttons and movement, which the dashboard ignores.
    Other,
}

/// One event from the terminal.
#[derive(Clone, Copy, Debug, PartialEq, Eq, Structural)]
pub enum Event {
    Key { code: KeyCode, kind: KeyEventKind },
    /// `ctrl` tells whether the control key was held.
    Mouse { wheel: MouseEventKind, ctrl: bool },
    /// Resize, focus, paste: nothing the state depends on.
    Other,
}

/// What the main loop has to do after an event.
#[derive(Clone, Copy, Debug, PartialEq, Eq, Structural)]
pub enum Action {
    /// Go on with the loop.
    Continue,
    /// Leave the loop and end the program.
    Quit,
    /// Run the status command now and load what it prints.
    RunCommand,
}

} // verus!
