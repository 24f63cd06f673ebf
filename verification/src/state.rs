use vstd::prelude::*;

use crate::data::{Todo, User};
use crate::selection::{
    list_select_next, list_select_previous, list_with_selected, table_select_next,
    table_select_previous, table_with_selected, Selection,
};

verus! {

/// Which of the two panels receives the navigation keys.
#[derive(Debug, Clone, Copy, PartialEq, Eq, Structural)]
pub enum Focus {
    List,
    Table,
}

/// Number of frames of the loading spinner.
pub const SPINNER_FRAME_COUNT: usize = 4;

/// The glyph shown for spinner frame `frame`: `|`, `/`, `-`, `\`.
pub open spec fn spinner_glyph(frame: nat) -> char {
    if frame == 0 {
        '|'
    } else if frame == 1 {
        '/'
    } else if frame == 2 {
        '-'
    } else {
        '\\'
    }
}

/// Abstract state of the user list.
pub enum UsersModel {
    Loading,
    Loaded(Seq<User>),
    Failed(Seq<char>),
}

/// Abstract state of the to-do table.
pub enum TodosModel {
    Idle,
    Loading,
    Loaded(Seq<Todo>),
    Failed(Seq<char>),
}

/// Abstract value of an [`AppState`].
pub struct AppModel {
    pub focus: Focus,
    pub list: Selection,
    pub table: Selection,
    pub users: UsersModel,
    pub todos: TodosModel,
    pub current_user_id: Option<u32>,
    pub current_user_name: Option<Seq<char>>,
    pub spinner_frame: nat,
    pub show_log: bool,
}

impl AppModel {
    /// The state the application starts in: users loading, no to-dos asked
    /// for, focus on the list, nothing selected, log hidden.
    pub open spec fn initial() -> AppModel {
        AppModel {
            focus: Focus::List,
            list: Selection::fresh(None),
            table: Selection::fresh(None),
            users: UsersModel::Loading,
            todos: TodosModel::Idle,
            current_user_id: None,
            current_user_name: None,
            spinner_frame: 0,
            show_log: false,
        }
    }

    pub open spec fn focus_toggled(self) -> AppModel {
        AppModel {
            focus: match self.focus {
                Focus::List => Focus::Table,
                Focus::Table => Focus::List,
            },
            ..self
        }
    }

    /// One row down in the focused widget.
    pub open spec fn moved_next(self) -> AppModel {
        match self.focus {
            Focus::List => AppModel { list: self.list.moved_next(), ..self },
            Focus::Table => AppModel { table: self.table.moved_next(), ..self },
        }
    }

    /// One row up in the focused widget.
    pub open spec fn moved_previous(self) -> AppModel {
        match self.focus {
            Focus::List => AppModel { list: self.list.moved_previous(), ..self },
            Focus::Table => AppModel { table: self.table.moved_previous(), ..self },
        }
    }

    /// Users arrived: they are shown, the first one (if any) selected.
    pub open spec fn users_loaded(self, users: Seq<User>) -> AppModel {
        AppModel {
            list: Selection::fresh(if users.len() == 0 { None } else { Some(0usize) }),
            users: UsersModel::Loaded(users),
            ..self
        }
    }

    pub open spec fn users_failed(self, error: Seq<char>) -> AppModel {
        AppModel { users: UsersModel::Failed(error), ..self }
    }

    /// The user under the list selection, when the users are loaded and the
    /// selection points at one of them.
    pub open spec fn selected_user(self) -> Option<User> {
        match self.users {
            UsersModel::Loaded(users) => match self.list.selected {
                Some(i) => if i < users.len() {
                    Some(users[i as int])
                } else {
                    None
                },
                None => None,
            },
            _ => None,
        }
    }

    /// Confirming the selection makes the selected user current, starts
    /// loading its to-dos and moves the focus to the table; without a
    /// selected user nothing changes.
    pub open spec fn confirmed(self) -> AppModel {
        match self.selected_user() {
            Some(user) => AppModel {
                current_user_id: Some(user.id),
                current_user_name: Some(user.name@),
                todos: TodosModel::Loading,
                focus: Focus::Table,
                ..self
            },
            None => self,
        }
    }

    /// To-dos arrived: they are shown, the first one (if any) selected.
    pub open spec fn todos_loaded(self, todos: Seq<Todo>) -> AppModel {
        AppModel {
            table: Selection::fresh(if todos.len() == 0 { None } else { Some(0usize) }),
            todos: TodosModel::Loaded(todos),
            ..self
        }
    }

    pub open spec fn todos_failed(self, error: Seq<char>) -> AppModel {
        AppModel { todos: TodosModel::Failed(error), ..self }
    }

    pub open spec fn spinner_advanced(self) -> AppModel {
        AppModel { spinner_frame: (self.spinner_frame + 1) % (SPINNER_FRAME_COUNT as nat), ..self }
    }

    pub open spec fn log_toggled(self) -> AppModel {
        AppModel { show_log: !self.show_log, ..self }
    }
}

enum UsersStatus {
    Loading,
    Loaded(Vec<User>),
    Failed(String),
}

enum TodosStatus {
    Idle,
    Loading,
    Loaded(Vec<Todo>),
    Failed(String),
}

impl View for UsersStatus {
    type V = UsersModel;

    closed spec fn view(&self) -> UsersModel {
        match self {
            UsersStatus::Loading => UsersModel::Loading,
            UsersStatus::Loaded(users) => UsersModel::Loaded(users@),
            UsersStatus::Failed(error) => UsersModel::Failed(error@),
        }
    }
}

impl View for TodosStatus {
    type V = TodosModel;

    closed spec fn view(&self) -> TodosModel {
        match self {
            TodosStatus::Idle => TodosModel::Idle,
            TodosStatus::Loading => TodosModel::Loading,
            TodosStatus::Loaded(todos) => TodosModel::Loaded(todos@),
            TodosStatus::Failed(error) => TodosModel::Failed(error@),
        }
    }
}

/// Position of the loading spinner; it always indexes one of its glyphs.
struct SpinnerFrame {
    index: usize,
}

impl SpinnerFrame {
    #[verifier::type_invariant]
    spec fn in_range(self) -> bool {
        self.index < SPINNER_FRAME_COUNT
    }

    fn advanced(&self) -> (r: SpinnerFrame)
        ensures
            r.index == (self.index + 1) % (SPINNER_FRAME_COUNT as int),
    {
        proof {
            use_type_invariant(self);
        }
        SpinnerFrame { index: self.index.wrapping_add(1) % SPINNER_FRAME_COUNT }
    }

    fn glyph(&self) -> (r: char)
        ensures
            r == spinner_glyph(self.index as nat),
            self.index < SPINNER_FRAME_COUNT,
    {
        proof {
            use_type_invariant(self);
        }
        match self.index {
            0 => '|',
            1 => '/',
            2 => '-',
            _ => '\\',
        }
    }
}

/// Application state, updated in response to messages and read by the UI.
pub struct AppState {
    focus: Focus,
    list_state: Selection,
    table_state: Selection,
    users: UsersStatus,
    todos: TodosStatus,
    current_user_id: Option<u32>,
    current_user_name: Option<String>,
    spinner_frame: SpinnerFrame,
    show_log: bool,
}

impl View for AppState {
    type V = AppModel;

    closed spec fn view(&self) -> AppModel {
        AppModel {
            focus: self.focus,
            list: self.list_state,
            table: self.table_state,
            users: self.users@,
            todos: self.todos@,
            current_user_id: self.current_user_id,
            current_user_name: match self.current_user_name {
                Some(name) => Some(name@),
                None => None,
            },
            spinner_frame: self.spinner_frame.index as nat,
            show_log: self.show_log,
        }
    }
}

impl AppState {
    /// Switches focus between the list and the table.
    pub fn toggle_focus(&mut self)
        ensures
            final(self)@ == old(self)@.focus_toggled(),
    {
        self.focus = match self.focus {
            Focus::List => Focus::Table,
            Focus::Table => Focus::List,
        };
    }

    /// Moves the selection up in the currently focused widget.
    pub fn select_previous(&mut self)
        ensures
            final(self)@ == old(self)@.moved_previous(),
    {
        match self.focus {
            Focus::List => self.list_state = list_select_previous(self.list_state),
            Focus::Table => self.table_state = table_select_previous(self.table_state),
        }
    }

    /// Moves the selection down in the currently focused widget.
    pub fn select_next(&mut self)
        ensures
            final(self)@ == old(self)@.moved_next(),
    {
        match self.focus {
            Focus::List => self.list_state = list_select_next(self.list_state),
            Focus::Table => self.table_state = table_select_next(self.table_state),
        }
    }

    pub fn is_list_focused(&self) -> (r: bool)
        ensures
            r == (self@.focus == Focus::List),
    {
        self.focus == Focus::List
    }

    pub fn is_table_focused(&self) -> (r: bool)
        ensures
            r == (self@.focus == Focus::Table),
    {
        self.focus == Focus::Table
    }
    /// Mutable access to the widget state of the user list, for rendering.
    pub fn list_state_mut(&mut self) -> (r: &mut Selection)
        ensures
            *r == old(self)@.list,
            final(self)@ == (AppModel { list: *final(r), ..old(self)@ }),
    {
        &mut self.list_state
    }

    /// Mutable access to the widget state of the to-do table, for rendering.
    pub fn table_state_mut(&mut self) -> (r: &mut Selection)
        ensures
            *r == old(self)@.table,
            final(self)@ == (AppModel { table: *final(r), ..old(self)@ }),
    {
        &mut self.table_state
    }

    /// Stores the loaded users and selects the first one, if there is one.
    pub fn set_users(&mut self, users: Vec<User>)
        ensures
            final(self)@ == old(self)@.users_loaded(users@),
    {
        let selezione = if users.len() == 0 {
            None
        } else {
            Some(0usize)
        };
        self.list_state = list_with_selected(selezione);
        self.users = UsersStatus::Loaded(users);
    }

    pub fn set_users_error(&mut self, errore: String)
        ensures
            final(self)@ == old(self)@.users_failed(errore@),
    {
        self.users = UsersStatus::Failed(errore);
    }

    /// Makes the user under the list selection the current one and starts
    /// loading its to-dos; does nothing when no loaded user is selected.
    pub fn confirm_selection(&mut self)
        ensures
            final(self)@ == old(self)@.confirmed(),
    {
        let indice = self.list_state.selected;
        let utente: Option<(u32, String)> = match (&self.users, indice) {
            (UsersStatus::Loaded(users), Some(indice)) => {
                if indice < users.len() {
                    Some((users[indice].id, users[indice].name.clone()))
                } else {
                    None
                }
            },
            _ => None,
        };
        if let Some((id, nome)) = utente {
            self.current_user_id = Some(id);
            self.current_user_name = Some(nome);
            self.todos = TodosStatus::Loading;
            self.focus = Focus::Table;
        }
    }

    /// Stores the loaded to-dos and selects the first one, if there is one.
    pub fn set_todos(&mut self, todos: Vec<Todo>)
        ensures
            final(self)@ == old(self)@.todos_loaded(todos@),
    {
        let selezione = if todos.len() == 0 {
            None
        } else {
            Some(0usize)
        };
        self.table_state = table_with_selected(selezione);
        self.todos = TodosStatus::Loaded(todos);
    }

    pub fn set_todos_error(&mut self, errore: String)
        ensures
            final(self)@ == old(self)@.todos_failed(errore@),
    {
        self.todos = TodosStatus::Failed(errore);
    }

    /// Advances the loading spinner by one frame.
    pub fn advance_spinner(&mut self)
        ensures
            final(self)@ == old(self)@.spinner_advanced(),
    {
        self.spinner_frame = self.spinner_frame.advanced();
    }

    pub fn is_users_loading(&self) -> (r: bool)
        ensures
            r == (self@.users is Loading),
    {
        matches!(self.users, UsersStatus::Loading)
    }

    pub fn users_error(&self) -> (r: Option<&str>)
        ensures
            r.is_some() == (self@.users is Failed),
            r matches Some(e) ==> self@.users == UsersModel::Failed(e@),
    {
        match &self.users {
            UsersStatus::Failed(errore) => Some(errore.as_str()),
            _ => None,
        }
    }

    pub fn users(&self) -> (r: Option<&[User]>)
        ensures
            r.is_some() == (self@.users is Loaded),
            r matches Some(users) ==> self@.users == UsersModel::Loaded(users@),
    {
        match &self.users {
            UsersStatus::Loaded(users) => Some(users.as_slice()),
            _ => None,
        }
    }

    pub fn is_todos_idle(&self) -> (r: bool)
        ensures
            r == (self@.todos is Idle),
    {
        matches!(self.todos, TodosStatus::Idle)
    }

    pub fn is_todos_loading(&self) -> (r: bool)
        ensures
            r == (self@.todos is Loading),
    {
        matches!(self.todos, TodosStatus::Loading)
    }

    pub fn todos_error(&self) -> (r: Option<&str>)
        ensures
            r.is_some() == (self@.todos is Failed),
            r matches Some(e) ==> self@.todos == TodosModel::Failed(e@),
    {
        match &self.todos {
            TodosStatus::Failed(errore) => Some(errore.as_str()),
            _ => None,
        }
    }

    pub fn todos(&self) -> (r: Option<&[Todo]>)
        ensures
            r.is_some() == (self@.todos is Loaded),
            r matches Some(todos) ==> self@.todos == TodosModel::Loaded(todos@),
    {
        match &self.todos {
            TodosStatus::Loaded(todos) => Some(todos.as_slice()),
            _ => None,
        }
    }

    pub fn current_user_id(&self) -> (r: Option<u32>)
        ensures
            r == self@.current_user_id,
    {
        self.current_user_id
    }

    pub fn current_user_name(&self) -> (r: Option<&str>)
        ensures
            r.is_some() == self@.current_user_name.is_some(),
            r matches Some(name) ==> self@.current_user_name == Some(name@),
    {
        match &self.current_user_name {
            Some(nome) => Some(nome.as_str()),
            None => None,
        }
    }

    /// Returns the current spinner character.
    pub fn spinner_symbol(&self) -> (r: char)
        ensures
            r == spinner_glyph(self@.spinner_frame),
            self@.spinner_frame < SPINNER_FRAME_COUNT,
    {
        self.spinner_frame.glyph()
    }

    pub fn show_log(&self) -> (r: bool)
        ensures
            r == self@.show_log,
    {
        self.show_log
    }

    pub fn toggle_log(&mut self)
        ensures
            final(self)@ == old(self)@.log_toggled(),
    {
        self.show_log = !self.show_log;
    }
}

impl Default for AppState {
    fn default() -> (r: Self)
        ensures
            r@ == AppModel::initial(),
    {
        AppState {
            focus: Focus::List,
            list_state: list_with_selected(None),
            table_state: table_with_selected(None),
            users: UsersStatus::Loading,
            todos: TodosStatus::Idle,
            current_user_id: None,
            current_user_name: None,
            spinner_frame: SpinnerFrame { index: 0 },
            show_log: false,
        }
    }
}

} // verus!
