use tui_async_template::api::{todos_fetched, todos_url, users_fetched, users_url};
use tui_async_template::data::{Todo, User};
use tui_async_template::state::AppState;
use tui_async_template::text::{decimal_string, joined};
use tui_async_template::update::Message;
use tui_async_template::view::{list_panel, table_panel, table_title, ListPanel, TablePanel};

fn user(id: u32, name: &str) -> User {
    User { id, name: name.to_string() }
}

#[test]
fn decimal_strings() {
    assert_eq!(decimal_string(0), "0");
    assert_eq!(decimal_string(7), "7");
    assert_eq!(decimal_string(10), "10");
    assert_eq!(decimal_string(1234567), "1234567");
    assert_eq!(decimal_string(u32::MAX), u32::MAX.to_string());
    assert_eq!(joined("ab", "cd"), "abcd");
}

#[test]
fn urls() {
    assert_eq!(users_url(), "https://jsonplaceholder.typicode.com/users");
    assert_eq!(todos_url(42), "https://jsonplaceholder.typicode.com/todos?userId=42");
    assert_eq!(todos_url(0), "https://jsonplaceholder.typicode.com/todos?userId=0");
}

#[test]
fn fetch_results_become_messages() {
    match users_fetched(Ok(vec![user(1, "a")])) {
        Message::UsersLoaded(users) => assert_eq!(users, vec![user(1, "a")]),
        other => panic!("unexpected {:?}", other),
    }
    match users_fetched(Err("no route".to_string())) {
        Message::UsersLoadFailed(e) => assert_eq!(e, "no route"),
        other => panic!("unexpected {:?}", other),
    }
    match todos_fetched(Ok(vec![])) {
        Message::TodosLoaded(todos) => assert!(todos.is_empty()),
        other => panic!("unexpected {:?}", other),
    }
    match todos_fetched(Err("404".to_string())) {
        Message::TodosLoadFailed(e) => assert_eq!(e, "404"),
        other => panic!("unexpected {:?}", other),
    }
}

#[test]
fn list_panel_while_loading_shows_spinner() {
    let mut s = AppState::default();
    match list_panel(&s) {
        ListPanel::Notice(t) => assert_eq!(t, "| Caricamento utenti..."),
        other => panic!("unexpected {:?}", other),
    }
    s.advance_spinner();
    s.advance_spinner();
    s.advance_spinner();
    match list_panel(&s) {
        ListPanel::Notice(t) => assert_eq!(t, "\\ Caricamento utenti..."),
        other => panic!("unexpected {:?}", other),
    }
}

#[test]
fn list_panel_error_and_names() {
    let mut s = AppState::default();
    s.set_users_error("timeout".to_string());
    match list_panel(&s) {
        ListPanel::Notice(t) => assert_eq!(t, "Errore nel caricamento: timeout"),
        other => panic!("unexpected {:?}", other),
    }
    s.set_users(vec![user(1, "Leanne Graham"), user(2, "Ervin Howell")]);
    match list_panel(&s) {
        ListPanel::Users(items) => assert_eq!(items, vec!["Leanne Graham", "Ervin Howell"]),
        other => panic!("unexpected {:?}", other),
    }
}

#[test]
fn table_panel_states() {
    let mut s = AppState::default();
    match table_panel(&s) {
        TablePanel::Notice(t) => assert_eq!(t, "Seleziona un utente e premi Invio."),
        other => panic!("unexpected {:?}", other),
    }
    assert_eq!(table_title(&s), " To-do ");
    s.set_users(vec![user(3, "Clementine")]);
    s.confirm_selection();
    s.advance_spinner();
    match table_panel(&s) {
        TablePanel::Notice(t) => assert_eq!(t, "/ Caricamento to-do..."),
        other => panic!("unexpected {:?}", other),
    }
    assert_eq!(table_title(&s), " To-do di Clementine ");
    s.set_todos_error("500".to_string());
    match table_panel(&s) {
        TablePanel::Notice(t) => assert_eq!(t, "Errore nel caricamento: 500"),
        other => panic!("unexpected {:?}", other),
    }
    s.set_todos(vec![
        Todo { id: 41, title: "buy milk".to_string(), completed: true },
        Todo { id: 42, title: "call".to_string(), completed: false },
    ]);
    match table_panel(&s) {
        TablePanel::Rows(rows) => {
            assert_eq!(rows.len(), 2);
            assert_eq!(rows[0].id, "41");
            assert_eq!(rows[0].title, "buy milk");
            assert_eq!(rows[0].status, "Completato");
            assert_eq!(rows[1].id, "42");
            assert_eq!(rows[1].title, "call");
            assert_eq!(rows[1].status, "Da fare");
        }
        other => panic!("unexpected {:?}", other),
    }
}
