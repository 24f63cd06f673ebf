use tui_async_template::data::{Todo, User};
use tui_async_template::selection::Selection;
use tui_async_template::state::AppState;
use tui_async_template::update::{handle_message, update, LoopAction, Message};

fn user(id: u32, name: &str) -> User {
    User { id, name: name.to_string() }
}

fn todo(id: u32, title: &str, completed: bool) -> Todo {
    Todo { id, title: title.to_string(), completed }
}

#[test]
fn default_state_starts_loading_users_with_list_focused() {
    let mut s = AppState::default();
    assert!(s.is_list_focused());
    assert!(!s.is_table_focused());
    assert!(s.is_users_loading());
    assert!(s.users().is_none());
    assert!(s.users_error().is_none());
    assert!(s.is_todos_idle());
    assert!(!s.is_todos_loading());
    assert!(s.todos().is_none());
    assert!(s.todos_error().is_none());
    assert_eq!(s.current_user_id(), None);
    assert_eq!(s.current_user_name(), None);
    assert_eq!(s.spinner_symbol(), '|');
    assert!(!s.show_log());
    assert_eq!(*s.list_state_mut(), Selection { selected: None, offset: 0 });
    assert_eq!(*s.table_state_mut(), Selection { selected: None, offset: 0 });
}

#[test]
fn toggle_focus_twice_restores_focus() {
    let mut s = AppState::default();
    s.toggle_focus();
    assert!(s.is_table_focused());
    s.toggle_focus();
    assert!(s.is_list_focused());
}

#[test]
fn toggle_log_switches_and_restores() {
    let mut s = AppState::default();
    s.toggle_log();
    assert!(s.show_log());
    s.toggle_log();
    assert!(!s.show_log());
}

#[test]
fn spinner_cycles_through_four_frames() {
    let mut s = AppState::default();
    let mut seen = Vec::new();
    for _ in 0..5 {
        seen.push(s.spinner_symbol());
        s.advance_spinner();
    }
    assert_eq!(seen, vec!['|', '/', '-', '\\', '|']);
}

#[test]
fn select_next_from_nothing_selects_first() {
    let mut s = AppState::default();
    s.select_next();
    assert_eq!(s.list_state_mut().selected, Some(0));
    s.select_next();
    assert_eq!(s.list_state_mut().selected, Some(1));
    s.select_previous();
    assert_eq!(s.list_state_mut().selected, Some(0));
    s.select_previous();
    assert_eq!(s.list_state_mut().selected, Some(0));
    // the table is untouched while the list has the focus
    assert_eq!(s.table_state_mut().selected, None);
}

#[test]
fn select_previous_from_nothing_selects_last() {
    let mut s = AppState::default();
    s.toggle_focus();
    s.select_previous();
    assert_eq!(s.table_state_mut().selected, Some(usize::MAX));
    s.select_next();
    assert_eq!(s.table_state_mut().selected, Some(usize::MAX));
    assert_eq!(s.list_state_mut().selected, None);
}

#[test]
fn navigation_keeps_the_offset() {
    let mut s = AppState::default();
    s.list_state_mut().offset = 3;
    s.list_state_mut().selected = Some(5);
    s.select_next();
    assert_eq!(*s.list_state_mut(), Selection { selected: Some(6), offset: 3 });
    s.select_previous();
    s.select_previous();
    assert_eq!(*s.list_state_mut(), Selection { selected: Some(4), offset: 3 });
}

#[test]
fn set_users_selects_first_user() {
    let mut s = AppState::default();
    s.list_state_mut().offset = 2;
    s.set_users(vec![user(1, "Leanne"), user(2, "Ervin")]);
    assert!(!s.is_users_loading());
    assert_eq!(s.users().unwrap(), &[user(1, "Leanne"), user(2, "Ervin")][..]);
    assert_eq!(*s.list_state_mut(), Selection { selected: Some(0), offset: 0 });
}

#[test]
fn set_users_empty_selects_nothing() {
    let mut s = AppState::default();
    s.set_users(vec![]);
    assert_eq!(s.users().unwrap().len(), 0);
    assert_eq!(s.list_state_mut().selected, None);
    s.confirm_selection();
    assert_eq!(s.current_user_id(), None);
    assert!(s.is_todos_idle());
    assert!(s.is_list_focused());
}

#[test]
fn set_users_error_is_reported() {
    let mut s = AppState::default();
    s.set_users_error("timeout".to_string());
    assert_eq!(s.users_error(), Some("timeout"));
    assert!(!s.is_users_loading());
    assert!(s.users().is_none());
}

#[test]
fn confirm_selection_picks_selected_user() {
    let mut s = AppState::default();
    s.set_users(vec![user(1, "Leanne"), user(2, "Ervin"), user(3, "Clementine")]);
    s.select_next();
    s.confirm_selection();
    assert_eq!(s.current_user_id(), Some(2));
    assert_eq!(s.current_user_name(), Some("Ervin"));
    assert!(s.is_todos_loading());
    assert!(s.is_table_focused());
}

#[test]
fn confirm_selection_out_of_range_does_nothing() {
    let mut s = AppState::default();
    s.set_users(vec![user(1, "Leanne")]);
    s.select_previous();
    s.select_previous();
    s.list_state_mut().selected = Some(5);
    s.confirm_selection();
    assert_eq!(s.current_user_id(), None);
    assert!(s.is_list_focused());
    assert!(s.is_todos_idle());
}

#[test]
fn confirm_selection_while_loading_does_nothing() {
    let mut s = AppState::default();
    s.select_next();
    s.confirm_selection();
    assert_eq!(s.current_user_id(), None);
    assert!(s.is_todos_idle());
}

#[test]
fn set_todos_and_error() {
    let mut s = AppState::default();
    s.set_todos(vec![todo(1, "a", false), todo(2, "b", true)]);
    assert_eq!(s.todos().unwrap().len(), 2);
    assert_eq!(*s.table_state_mut(), Selection { selected: Some(0), offset: 0 });
    s.set_todos(vec![]);
    assert_eq!(s.table_state_mut().selected, None);
    s.set_todos_error("boom".to_string());
    assert_eq!(s.todos_error(), Some("boom"));
    assert!(s.todos().is_none());
}

#[test]
fn update_dispatches_application_messages() {
    let mut s = AppState::default();
    update(&mut s, Message::UsersLoaded(vec![user(4, "Patricia")]));
    update(&mut s, Message::Tick);
    assert_eq!(s.spinner_symbol(), '/');
    update(&mut s, Message::ToggleLog);
    assert!(s.show_log());
    update(&mut s, Message::Confirm);
    assert_eq!(s.current_user_id(), Some(4));
    update(&mut s, Message::TodosLoadFailed("x".to_string()));
    assert_eq!(s.todos_error(), Some("x"));
    update(&mut s, Message::TodosLoaded(vec![todo(9, "t", true)]));
    assert_eq!(s.todos().unwrap().len(), 1);
    update(&mut s, Message::ToggleFocus);
    assert!(s.is_list_focused());
    update(&mut s, Message::SelectNext);
    assert_eq!(s.list_state_mut().selected, Some(1));
    update(&mut s, Message::SelectPrevious);
    assert_eq!(s.list_state_mut().selected, Some(0));
    update(&mut s, Message::UsersLoadFailed("down".to_string()));
    assert_eq!(s.users_error(), Some("down"));
}

#[test]
fn update_ignores_control_messages() {
    let mut s = AppState::default();
    update(&mut s, Message::Quit);
    update(&mut s, Message::InputError("e".to_string()));
    assert!(s.is_list_focused());
    assert!(s.is_users_loading());
    assert_eq!(s.spinner_symbol(), '|');
}

#[test]
fn handle_message_quit_and_input_error() {
    let mut s = AppState::default();
    assert!(matches!(handle_message(&mut s, Message::Quit), LoopAction::Quit));
    match handle_message(&mut s, Message::InputError("tty gone".to_string())) {
        LoopAction::Fail(e) => assert_eq!(e, "tty gone"),
        other => panic!("unexpected {:?}", other),
    }
    assert!(s.is_users_loading());
}

#[test]
fn handle_message_confirm_fetches_todos_of_selected_user() {
    let mut s = AppState::default();
    handle_message(&mut s, Message::UsersLoaded(vec![user(1, "Leanne"), user(2, "Ervin")]));
    handle_message(&mut s, Message::SelectNext);
    match handle_message(&mut s, Message::Confirm) {
        LoopAction::FetchTodos(id) => assert_eq!(id, 2),
        other => panic!("unexpected {:?}", other),
    }
    assert!(s.is_table_focused());
    assert!(s.is_todos_loading());
    // with the table focused, Enter is ignored
    assert!(matches!(handle_message(&mut s, Message::Confirm), LoopAction::Continue));
    assert!(s.is_todos_loading());
}

#[test]
fn handle_message_confirm_without_users_continues() {
    let mut s = AppState::default();
    assert!(matches!(handle_message(&mut s, Message::Confirm), LoopAction::Continue));
    assert_eq!(s.current_user_id(), None);
    assert!(matches!(handle_message(&mut s, Message::Tick), LoopAction::Continue));
    assert_eq!(s.spinner_symbol(), '/');
}

#[test]
fn current_user_stays_consistent_and_todos_never_idle_again() {
    let mut s = AppState::default();
    let check = |s: &AppState| {
        assert_eq!(s.current_user_id().is_some(), s.current_user_name().is_some());
        if s.is_todos_idle() {
            assert_eq!(s.current_user_id(), None);
        }
    };
    check(&s);
    update(&mut s, Message::UsersLoaded(vec![user(1, "Leanne"), user(2, "Ervin")]));
    check(&s);
    update(&mut s, Message::Confirm);
    check(&s);
    assert!(!s.is_todos_idle());
    for message in [
        Message::TodosLoadFailed("x".to_string()),
        Message::UsersLoaded(vec![]),
        Message::Confirm,
        Message::TodosLoaded(vec![]),
        Message::ToggleFocus,
        Message::SelectNext,
        Message::Tick,
    ] {
        update(&mut s, message);
        check(&s);
        assert!(!s.is_todos_idle());
    }
    assert_eq!(s.current_user_id(), Some(1));
}
