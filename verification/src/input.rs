//! Classifying key input into messages. Only a *pressed* key produces
//! a message, via a fixed table: `j` increments, `k` decrements, `q`
//! quits; every other key produces none.

use vstd::prelude::*;

use crate::model::Message;

verus! {

/// The part of a key code the mapping reads: a printable character, or
/// anything else (arrows, function keys, ...), which is never mapped.
#[derive(Debug, Copy, Clone, PartialEq, Eq, Structural)]
pub enum KeyCode {
    Char(char),
    Other,
}

/// A key event as the loop sees it: which key, and whether this is the
/// press (rather than the release or repeat) of that key.
#[derive(Debug, Copy, Clone, PartialEq, Eq, Structural)]
pub struct KeyEvent {
    pub code: KeyCode,
    pub pressed: bool,
}

/// An input event: a key event, or any other kind of event (resize,
/// mouse, ...), which never produces a message.
#[derive(Debug, Copy, Clone, PartialEq, Eq, Structural)]
pub enum InputEvent {
    Key(KeyEvent),
    Other,
}

/// The fixed key table: `j`, `k` and `q` map to `Increment`,
/// `Decrement` and `Quit`; every other key code maps to nothing.
pub open spec fn spec_key_message(code: KeyCode) -> Option<Message> {
    match code {
        KeyCode::Char(c) => if c == 'j' {
            Some(Message::Increment)
        } else if c == 'k' {
            Some(Message::Decrement)
        } else if c == 'q' {
            Some(Message::Quit)
        } else {
            None
        },
        KeyCode::Other => None,
    }
}

/// What a whole (possibly absent) input event maps to: a message only
/// for the press of a mapped key; a timeout, a non-key event, and a
/// release all map to nothing.
pub open spec fn spec_handle_event(event: Option<InputEvent>) -> Option<Message> {
    match event {
        Some(InputEvent::Key(key)) => if key.pressed {
            spec_key_message(key.code)
        } else {
            None
        },
        Some(InputEvent::Other) => None,
        None => None,
    }
}

/// Map a key event's code through the fixed table.
pub fn handle_key(key: KeyEvent) -> (r: Option<Message>)
    ensures
        r == spec_key_message(key.code),
{
    match key.code {
        KeyCode::Char('j') => Some(Message::Increment),
        KeyCode::Char('k') => Some(Message::Decrement),
        KeyCode::Char('q') => Some(Message::Quit),
        _ => None,
    }
}

/// Classify what the input phase observed within its timeout: `None`
/// stands for no event; only the press of a key reaches the key table.
pub fn handle_event(event: Option<InputEvent>) -> (r: Option<Message>)
    ensures
        r == spec_handle_event(event),
{
    match event {
        Some(InputEvent::Key(key)) => if key.pressed {
            handle_key(key)
        } else {
            None
        },
        _ => None,
    }
}

} // verus!
