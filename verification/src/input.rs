//! Terminal events as plain values, and the fixed key map.

use vstd::prelude::*;
use crate::message::Message;

verus! {

/// The key of a keyboard event, as far as the key map tells keys apart.
#[derive(Clone, Copy, Debug, PartialEq, Eq, Structural)]
pub enum KeyCode {
    /// A key that produces a character.
    Char(char),
    /// Any other key.
    Other,
}

/// Whether a key went down, is held, or came up.
#[derive(Clone, Copy, Debug, PartialEq, Eq, Structural)]
pub enum KeyEventKind {
    Press,
    Repeat,
    Release,
}

/// One keyboard event.
#[derive(Clone, Copy, Debug, PartialEq, Eq, Structural)]
pub struct KeyEvent {
    pub code: KeyCode,
    pub kind: KeyEventKind,
}

/// One event of the terminal.
#[derive(Clone, Copy, Debug, PartialEq, Eq, Structural)]
pub enum Event {
    /// A keyboard event.
    Key(KeyEvent),
    /// Anything else: a resize, the mouse, a paste, the focus.
    Other,
}

/// The key map: space pauses, `q` quits, every other key reads on.
pub open spec fn message_for_key(code: KeyCode) -> Message {
    if code == KeyCode::Char(' ') {
        Message::Pause
    } else if code == KeyCode::Char('q') {
        Message::Quit
    } else {
        Message::Read
    }
}

/// The message that one poll of the terminal gives: that of the key map for a
/// key press, none where nothing arrived in time or what arrived is no key
/// press.
pub open spec fn message_for_poll(polled: Option<Event>) -> Option<Message> {
    match polled {
        Some(Event::Key(key)) if key.kind == KeyEventKind::Press => Some(
            message_for_key(key.code),
        ),
        _ => None,
    }
}

/// Translates a key into its message. Every key has one.
pub fn handle_key(key: KeyEvent) -> (msg: Option<Message>)
    ensures
        msg == Some(message_for_key(key.code)),
{
    match key.code {
        KeyCode::Char(c) => {
            if c == ' ' {
                Some(Message::Pause)
            } else if c == 'q' {
                Some(Message::Quit)
            } else {
                Some(Message::Read)
            }
        },
        KeyCode::Other => Some(Message::Read),
    }
}

/// Translates the outcome of one poll into a message. `polled` is the event
/// that arrived within the poll's timeout, if any.
pub fn handle_event(polled: Option<Event>) -> (msg: Option<Message>)
    ensures
        msg == message_for_poll(polled),
{
    match polled {
        Some(Event::Key(key)) => {
            match key.kind {
                KeyEventKind::Press => handle_key(key),
                _ => None,
            }
        },
        _ => None,
    }
}

} // verus!
