use vstd::prelude::*;

use crate::update::Message;

verus! {

/// The keys that the application tells apart; every other key is `Other`.
#[derive(Debug, Clone, Copy, PartialEq, Eq)]
pub enum KeyCode {
    Esc,
    Enter,
    Tab,
    Up,
    Down,
    Char(char),
    Other,
}

/// A terminal event, as far as the application reads it.
#[derive(Debug, Clone, Copy, PartialEq, Eq)]
pub enum InputEvent {
    /// A key event; `press` is false for releases and repeats.
    Key { code: KeyCode, press: bool },
    /// The terminal was resized.
    Resize,
    /// Any other event (mouse, focus, paste, ...).
    Other,
}

/// The key bindings: Esc and `q` quit, Enter confirms, Tab switches the
/// focus, the arrows move the selection and `l` shows or hides the log.
pub open spec fn key_binding(code: KeyCode) -> Option<Message> {
    match code {
        KeyCode::Esc => Some(Message::Quit),
        KeyCode::Char(c) => if c == 'q' {
            Some(Message::Quit)
        } else if c == 'l' {
            Some(Message::ToggleLog)
        } else {
            None
        },
        KeyCode::Enter => Some(Message::Confirm),
        KeyCode::Tab => Some(Message::ToggleFocus),
        KeyCode::Up => Some(Message::SelectPrevious),
        KeyCode::Down => Some(Message::SelectNext),
        KeyCode::Other => None,
    }
}

/// The message an event turns into: a pressed key by its binding, a resize
/// by a `Tick` (which forces a redraw); everything else is skipped.
pub open spec fn event_binding(event: InputEvent) -> Option<Message> {
    match event {
        InputEvent::Key { code, press } => if press {
            key_binding(code)
        } else {
            None
        },
        InputEvent::Resize => Some(Message::Tick),
        InputEvent::Other => None,
    }
}

/// Maps a key to its message, if the key is bound.
pub fn key_to_message(code: KeyCode) -> (r: Option<Message>)
    ensures
        r == key_binding(code),
{
    match code {
        KeyCode::Esc => Some(Message::Quit),
        KeyCode::Char(c) => {
            if c == 'q' {
                Some(Message::Quit)
            } else if c == 'l' {
                Some(Message::ToggleLog)
            } else {
                None
            }
        },
        KeyCode::Enter => Some(Message::Confirm),
        KeyCode::Tab => Some(Message::ToggleFocus),
        KeyCode::Up => Some(Message::SelectPrevious),
        KeyCode::Down => Some(Message::SelectNext),
        KeyCode::Other => None,
    }
}

/// Maps a terminal event to the message to send, if any; the input thread
/// keeps reading until an event yields one.
pub fn event_to_message(event: InputEvent) -> (r: Option<Message>)
    ensures
        r == event_binding(event),
{
    match event {
        InputEvent::Key { code, press } => {
            if press {
                key_to_message(code)
            } else {
                None
            }
        },
        InputEvent::Resize => Some(Message::Tick),
        InputEvent::Other => None,
    }
}

/// Whether the input thread goes on after handing `message` to the channel:
/// it stops once the channel is closed (`sent` false) or after reporting an
/// input error.
pub fn keeps_reading(message: &Message, sent: bool) -> (r: bool)
    ensures
        r == (sent && !(*message is InputError)),
{
    let input_valido = !matches!(message, Message::InputError(_));
    sent && input_valido
}

} // verus!
