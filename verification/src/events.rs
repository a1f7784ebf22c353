//! Decoding of keyboard and mouse input into actions.  The raw terminal
//! events arrive through the front end, reduced to the plain key and
//! modifier values that the decision table below reads.

use vstd::prelude::*;

use crate::error::SearchError;

verus! {

/// The keys the interface reacts to.
#[derive(Debug, Clone, Copy, PartialEq, Eq)]
pub enum Key {
    Esc,
    Up,
    Down,
    Enter,
    Tab,
    Backspace,
    Char(char),
    Other,
}

/// The modifier states the interface distinguishes: none, control alone,
/// or any other combination.
#[derive(Debug, Clone, Copy, PartialEq, Eq)]
pub enum KeyModifier {
    NoMods,
    Ctrl,
    OtherMods,
}

/// One decoded key press.
#[derive(Debug, Clone, Copy, PartialEq, Eq)]
pub struct KeyInput {
    pub key: Key,
    pub mods: KeyModifier,
}

/// The mouse gestures the interface distinguishes.
#[derive(Debug, Clone, Copy, PartialEq, Eq)]
pub enum MouseKind {
    LeftDown,
    Other,
}

/// One decoded mouse event.
#[derive(Debug, Clone, Copy, PartialEq, Eq)]
pub struct MouseInput {
    pub kind: MouseKind,
    pub column: u16,
    pub row: u16,
}

/// What a key press asks the application to do.
#[derive(Debug, PartialEq)]
pub enum KeyAction {
    Quit,
    MovePrevious,
    MoveNext,
    OpenFile,
    CycleFocus,
    RefreshSearch,
    FocusSearch,
    InputChar(char),
    DeleteChar,
    NoAction,
}

/// What a mouse event asks the application to do.
#[derive(Debug, PartialEq)]
pub enum MouseAction {
    NoAction,
    ClickAt(u16, u16),
}

/// The key decision table: Esc or control-c quits; arrows move; enter opens;
/// tab cycles focus; control-r refreshes; '/' or control-f focuses the
/// search box; a plain character is input; plain backspace deletes.
pub open spec fn key_action_of(e: KeyInput) -> KeyAction {
    match e.key {
        Key::Esc => KeyAction::Quit,
        Key::Up => KeyAction::MovePrevious,
        Key::Down => KeyAction::MoveNext,
        Key::Enter => KeyAction::OpenFile,
        Key::Tab => KeyAction::CycleFocus,
        Key::Char(c) => if c == 'c' && (e.mods is Ctrl) {
            KeyAction::Quit
        } else if c == 'r' && (e.mods is Ctrl) {
            KeyAction::RefreshSearch
        } else if c == '/' {
            KeyAction::FocusSearch
        } else if c == 'f' && (e.mods is Ctrl) {
            KeyAction::FocusSearch
        } else if e.mods is NoMods {
            KeyAction::InputChar(c)
        } else {
            KeyAction::NoAction
        },
        Key::Backspace => if e.mods is NoMods {
            KeyAction::DeleteChar
        } else {
            KeyAction::NoAction
        },
        Key::Other => KeyAction::NoAction,
    }
}

/// The mouse decision table: a left button press selects at its position.
pub open spec fn mouse_action_of(e: MouseInput) -> MouseAction {
    match e.kind {
        MouseKind::LeftDown => MouseAction::ClickAt(e.column, e.row),
        MouseKind::Other => MouseAction::NoAction,
    }
}

/// Event handler for terminal input.
pub struct EventHandler;

impl EventHandler {
    /// Creates a new event handler.
    pub fn new() -> (r: Result<EventHandler, SearchError>)
        ensures
            r is Ok,
    {
        Ok(EventHandler)
    }

    /// Decodes a key press into the action to take.
    pub fn handle_key_event(&self, event: KeyInput) -> (r: KeyAction)
        ensures
            r == key_action_of(event),
    {
        match event.key {
            Key::Esc => KeyAction::Quit,
            Key::Up => KeyAction::MovePrevious,
            Key::Down => KeyAction::MoveNext,
            Key::Enter => KeyAction::OpenFile,
            Key::Tab => KeyAction::CycleFocus,
            Key::Char(c) => {
                let ctrl = matches!(event.mods, KeyModifier::Ctrl);
                if c == 'c' && ctrl {
                    KeyAction::Quit
                } else if c == 'r' && ctrl {
                    KeyAction::RefreshSearch
                } else if c == '/' {
                    KeyAction::FocusSearch
                } else if c == 'f' && ctrl {
                    KeyAction::FocusSearch
                } else if matches!(event.mods, KeyModifier::NoMods) {
                    KeyAction::InputChar(c)
                } else {
                    KeyAction::NoAction
                }
            },
            Key::Backspace => {
                if matches!(event.mods, KeyModifier::NoMods) {
                    KeyAction::DeleteChar
                } else {
                    KeyAction::NoAction
                }
            },
            Key::Other => KeyAction::NoAction,
        }
    }

    /// Decodes a mouse event into the action to take.
    pub fn handle_mouse_event(&self, event: MouseInput) -> (r: MouseAction)
        ensures
            r == mouse_action_of(event),
    {
        match event.kind {
            MouseKind::LeftDown => MouseAction::ClickAt(event.column, event.row),
            MouseKind::Other => MouseAction::NoAction,
        }
    }
}

} // verus!
