use tui_async_template::event::{event_to_message, keeps_reading, key_to_message, InputEvent, KeyCode};
use tui_async_template::update::Message;

#[test]
fn quit_keys() {
    assert!(matches!(key_to_message(KeyCode::Esc), Some(Message::Quit)));
    assert!(matches!(key_to_message(KeyCode::Char('q')), Some(Message::Quit)));
}

#[test]
fn navigation_keys() {
    assert!(matches!(key_to_message(KeyCode::Enter), Some(Message::Confirm)));
    assert!(matches!(key_to_message(KeyCode::Tab), Some(Message::ToggleFocus)));
    assert!(matches!(key_to_message(KeyCode::Up), Some(Message::SelectPrevious)));
    assert!(matches!(key_to_message(KeyCode::Down), Some(Message::SelectNext)));
}

#[test]
fn log_key_toggles_log() {
    assert!(matches!(key_to_message(KeyCode::Char('l')), Some(Message::ToggleLog)));
}

#[test]
fn unbound_keys() {
    assert!(key_to_message(KeyCode::Char('Q')).is_none());
    assert!(key_to_message(KeyCode::Char('x')).is_none());
    assert!(key_to_message(KeyCode::Other).is_none());
}

#[test]
fn events_to_messages() {
    assert!(matches!(
        event_to_message(InputEvent::Key { code: KeyCode::Enter, press: true }),
        Some(Message::Confirm)
    ));
    assert!(event_to_message(InputEvent::Key { code: KeyCode::Enter, press: false }).is_none());
    assert!(matches!(event_to_message(InputEvent::Resize), Some(Message::Tick)));
    assert!(event_to_message(InputEvent::Other).is_none());
    assert!(event_to_message(InputEvent::Key { code: KeyCode::Other, press: true }).is_none());
}

#[test]
fn input_thread_stops_on_error_or_closed_channel() {
    assert!(keeps_reading(&Message::Tick, true));
    assert!(!keeps_reading(&Message::Tick, false));
    assert!(!keeps_reading(&Message::InputError("e".to_string()), true));
    assert!(!keeps_reading(&Message::InputError("e".to_string()), false));
}
