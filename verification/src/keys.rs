//! The input-event and action vocabulary of the client.
//!
//! A local input event is a key press, a paste, or a terminal resize.  The
//! encoder turns an event into an [`Action`]: bytes to send to the remote
//! session, a local quit, a local-and-remote screen clear, or nothing.

use vstd::prelude::*;

verus! {

/// Modifier keys held together with a key press.  Modifiers the encoder
/// never reacts to (super and friends) are folded into `shift` by callers
/// or dropped; only `control` and `alt` influence the encoding.
#[derive(Clone, Copy, PartialEq, Eq, Structural, Debug)]
pub struct Modifiers {
    pub control: bool,
    pub alt: bool,
    pub shift: bool,
}

/// The key that was pressed.  `Char` carries the character the terminal
/// reported (case already applied); `F` carries a function-key number;
/// `Other` stands for any key the client has no mapping for.
#[derive(Clone, Copy, PartialEq, Eq, Structural, Debug)]
pub enum KeyCode {
    Char(char),
    F(u8),
    Enter,
    Tab,
    Backspace,
    Delete,
    Insert,
    Esc,
    Up,
    Down,
    Left,
    Right,
    Home,
    End,
    PageUp,
    PageDown,
    Other,
}

/// Whether the event reports a press, an auto-repeat, or a release.
#[derive(Clone, Copy, PartialEq, Eq, Structural, Debug)]
pub enum KeyEventKind {
    Press,
    Repeat,
    Release,
}

/// One keyboard event as the terminal reports it.
#[derive(Clone, Copy, PartialEq, Eq, Structural, Debug)]
pub struct KeyEvent {
    pub code: KeyCode,
    pub modifiers: Modifiers,
    pub kind: KeyEventKind,
}

/// One local input event.
#[derive(Clone, PartialEq, Eq, Debug)]
pub enum InputEvent {
    Key(KeyEvent),
    Paste(String),
    Resize(u16, u16),
}

/// Mathematical model of an [`InputEvent`]: pasted text as a character
/// sequence, a resize as columns then rows.
pub enum EventModel {
    Key(KeyEvent),
    Paste(Seq<char>),
    Resize(u16, u16),
}

impl View for InputEvent {
    type V = EventModel;

    open spec fn view(&self) -> EventModel {
        match self {
            InputEvent::Key(k) => EventModel::Key(*k),
            InputEvent::Paste(t) => EventModel::Paste(t@),
            InputEvent::Resize(cols, rows) => EventModel::Resize(*cols, *rows),
        }
    }
}

/// What the encoder decides for one event.
#[derive(Clone, PartialEq, Eq, Debug)]
pub enum Action {
    /// Forward these bytes (as characters of a text frame) to the remote
    /// session.
    Send(String),
    /// Quit the client; never forwarded to the remote session.
    Quit,
    /// Clear the local screen and ask the remote session to clear too;
    /// never forwarded as a literal byte.
    ClearScreen,
    /// Produce nothing.
    Ignore,
}

/// Mathematical model of an [`Action`].
pub enum ActionModel {
    Send(Seq<char>),
    Quit,
    ClearScreen,
    Ignore,
}

impl View for Action {
    type V = ActionModel;

    open spec fn view(&self) -> ActionModel {
        match self {
            Action::Send(s) => ActionModel::Send(s@),
            Action::Quit => ActionModel::Quit,
            Action::ClearScreen => ActionModel::ClearScreen,
            Action::Ignore => ActionModel::Ignore,
        }
    }
}

} // verus!
