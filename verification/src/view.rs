use vstd::prelude::*;

use crate::data::{Todo, User};
use crate::state::{spinner_glyph, AppModel, AppState, TodosModel, UsersModel};
use crate::text::{decimal, decimal_string, joined};

verus! {

/// What the user panel shows: a one-line notice, or the names of the users.
#[derive(Debug)]
pub enum ListPanel {
    Notice(String),
    Users(Vec<String>),
}

/// One row of the to-do table: id, title and status, as displayed.
#[derive(Debug)]
pub struct TodoRow {
    pub id: String,
    pub title: String,
    pub status: String,
}

/// What the to-do panel shows: a one-line notice, or one row per to-do.
#[derive(Debug)]
pub enum TablePanel {
    Notice(String),
    Rows(Vec<TodoRow>),
}

pub open spec fn loading_users_text() -> Seq<char> {
    " Caricamento utenti..."@
}

pub open spec fn loading_todos_text() -> Seq<char> {
    " Caricamento to-do..."@
}

pub open spec fn load_error_prefix() -> Seq<char> {
    "Errore nel caricamento: "@
}

pub open spec fn pick_user_text() -> Seq<char> {
    "Seleziona un utente e premi Invio."@
}

/// The status column of a to-do.
pub open spec fn status_text(completed: bool) -> Seq<char> {
    if completed {
        "Completato"@
    } else {
        "Da fare"@
    }
}

/// The title of the to-do panel: it names the current user, if there is one.
pub open spec fn table_title_text(name: Option<Seq<char>>) -> Seq<char> {
    match name {
        Some(n) => " To-do di "@ + n + " "@,
        None => " To-do "@,
    }
}

/// The notice of the user panel, if it shows one: the spinner while loading,
/// the error after a failure.
pub open spec fn list_notice(m: AppModel) -> Option<Seq<char>> {
    match m.users {
        UsersModel::Loading => Some(seq![spinner_glyph(m.spinner_frame)] + loading_users_text()),
        UsersModel::Failed(e) => Some(load_error_prefix() + e),
        UsersModel::Loaded(_) => None,
    }
}

/// The notice of the to-do panel, if it shows one: a hint before any user
/// was chosen, the spinner while loading, the error after a failure.
pub open spec fn table_notice(m: AppModel) -> Option<Seq<char>> {
    match m.todos {
        TodosModel::Idle => Some(pick_user_text()),
        TodosModel::Loading => Some(seq![spinner_glyph(m.spinner_frame)] + loading_todos_text()),
        TodosModel::Failed(e) => Some(load_error_prefix() + e),
        TodosModel::Loaded(_) => None,
    }
}

/// `items` are the names of `users`, in order.
pub open spec fn names_of(items: Seq<String>, users: Seq<User>) -> bool {
    &&& items.len() == users.len()
    &&& forall|i: int| 0 <= i < users.len() ==> (#[trigger] items[i])@ == users[i].name@
}

/// `row` displays `todo`.
pub open spec fn row_shows(row: TodoRow, todo: Todo) -> bool {
    &&& row.id@ == decimal(todo.id as nat)
    &&& row.title@ == todo.title@
    &&& row.status@ == status_text(todo.completed)
}

/// `rows` display `todos`, one row each, in order.
pub open spec fn rows_of(rows: Seq<TodoRow>, todos: Seq<Todo>) -> bool {
    &&& rows.len() == todos.len()
    &&& forall|i: int| 0 <= i < todos.len() ==> row_shows(#[trigger] rows[i], todos[i])
}

fn glyph_text(c: char) -> (r: &'static str)
    requires
        c == '|' || c == '/' || c == '-' || c == '\\',
    ensures
        r@ == seq![c],
{
    proof {
        reveal_strlit("|");
        reveal_strlit("/");
        reveal_strlit("-");
        reveal_strlit("\\");
    }
    if c == '|' {
        "|"
    } else if c == '/' {
        "/"
    } else if c == '-' {
        "-"
    } else {
        "\\"
    }
}

fn status_string(completed: bool) -> (r: String)
    ensures
        r@ == status_text(completed),
{
    if completed {
        String::from_str("Completato")
    } else {
        String::from_str("Da fare")
    }
}

/// The content of the user panel.
pub fn list_panel(state: &AppState) -> (r: ListPanel)
    ensures
        match list_notice(state@) {
            Some(text) => r matches ListPanel::Notice(s) && s@ == text,
            None => r matches ListPanel::Users(items) && (state@.users matches UsersModel::Loaded(
                users,
            ) && names_of(items@, users)),
        },
{
    if state.is_users_loading() {
        let spinner = state.spinner_symbol();
        return ListPanel::Notice(joined(glyph_text(spinner), " Caricamento utenti..."));
    }
    if let Some(errore) = state.users_error() {
        return ListPanel::Notice(joined("Errore nel caricamento: ", errore));
    }
    let users: &[User] = match state.users() {
        Some(users) => users,
        None => &[],
    };
    let mut items: Vec<String> = Vec::new();
    let mut i: usize = 0;
    while i < users.len()
        invariant
            i <= users@.len(),
            items@.len() == i,
            forall|j: int| 0 <= j < i ==> (#[trigger] items@[j])@ == users@[j].name@,
        decreases users@.len() - i,
    {
        items.push(users[i].name.clone());
        i += 1;
    }
    ListPanel::Users(items)
}

/// The content of the to-do panel.
pub fn table_panel(state: &AppState) -> (r: TablePanel)
    ensures
        match table_notice(state@) {
            Some(text) => r matches TablePanel::Notice(s) && s@ == text,
            None => r matches TablePanel::Rows(rows) && (state@.todos matches TodosModel::Loaded(
                todos,
            ) && rows_of(rows@, todos)),
        },
{
    if state.is_todos_idle() {
        return TablePanel::Notice(String::from_str("Seleziona un utente e premi Invio."));
    }
    if state.is_todos_loading() {
        let spinner = state.spinner_symbol();
        return TablePanel::Notice(joined(glyph_text(spinner), " Caricamento to-do..."));
    }
    if let Some(errore) = state.todos_error() {
        return TablePanel::Notice(joined("Errore nel caricamento: ", errore));
    }
    let todos: &[Todo] = match state.todos() {
        Some(todos) => todos,
        None => &[],
    };
    let mut rows: Vec<TodoRow> = Vec::new();
    let mut i: usize = 0;
    while i < todos.len()
        invariant
            i <= todos@.len(),
            rows@.len() == i,
            forall|j: int| 0 <= j < i ==> row_shows(#[trigger] rows@[j], todos@[j]),
        decreases todos@.len() - i,
    {
        let todo = &todos[i];
        rows.push(
            TodoRow {
                id: decimal_string(todo.id),
                title: todo.title.clone(),
                status: status_string(todo.completed),
            },
        );
        i += 1;
    }
    TablePanel::Rows(rows)
}

/// The title of the to-do panel.
pub fn table_title(state: &AppState) -> (r: String)
    ensures
        r@ == table_title_text(state@.current_user_name),
{
    match state.current_user_name() {
        Some(nome) => {
            let mut titolo = joined(" To-do di ", nome);
            titolo.append(" ");
            titolo
        },
        None => String::from_str(" To-do "),
    }
}

} // verus!
