use vstd::prelude::*;

use crate::data::{Todo, User};
use crate::selection::Selection;
use crate::state::{spinner_glyph, AppModel, Focus, TodosModel, UsersModel, SPINNER_FRAME_COUNT};
use crate::update::Message;
use crate::event::{event_binding, key_binding, InputEvent, KeyCode};
use crate::view::{
    list_notice, load_error_prefix, names_of, row_shows, rows_of, status_text, table_notice,
    table_title_text,
};
use crate::text::decimal;

verus! {

/// Switching the focus twice gives back the state it started from.
pub proof fn toggle_focus_twice_is_identity(m: AppModel)
    ensures
        m.focus_toggled().focus_toggled() == m,
{
}

/// Showing and hiding the log panel twice gives back the state it started from.
pub proof fn toggle_log_twice_is_identity(m: AppModel)
    ensures
        m.log_toggled().log_toggled() == m,
{
}

/// The spinner always stays on one of its frames, and four ticks bring it
/// back to the frame it started from.
pub proof fn spinner_cycles(m: AppModel)
    requires
        m.spinner_frame < SPINNER_FRAME_COUNT,
    ensures
        m.step(Message::Tick).spinner_frame < SPINNER_FRAME_COUNT,
        m.step(Message::Tick).step(Message::Tick).step(Message::Tick).step(Message::Tick) == m,
{
}

/// The spinner glyph is one of `|`, `/`, `-`, `\`.
pub proof fn spinner_glyph_is_one_of_four(frame: nat)
    ensures
        spinner_glyph(frame) == '|' || spinner_glyph(frame) == '/' || spinner_glyph(frame) == '-'
            || spinner_glyph(frame) == '\\',
{
}

/// Control messages never change the state when they reach `update`.
pub proof fn control_messages_leave_state(m: AppModel, message: Message)
    requires
        message.is_control(),
    ensures
        m.step(message) == m,
{
}

/// Moving up undoes moving down, as long as the selection did not saturate.
pub proof fn previous_undoes_next(s: Selection)
    requires
        s.selected is Some,
        s.selected.unwrap() < usize::MAX,
    ensures
        s.moved_next().moved_previous() == s,
{
}

/// Moving down undoes moving up, as long as the selection did not saturate.
pub proof fn next_undoes_previous(s: Selection)
    requires
        s.selected is Some,
        s.selected.unwrap() > 0,
    ensures
        s.moved_previous().moved_next() == s,
{
}

/// The navigation keys move only the selection of the focused panel.
pub proof fn navigation_moves_only_focused_panel(m: AppModel)
    ensures
        m.focus == Focus::List ==> m.step(Message::SelectNext) == (AppModel {
            list: m.list.moved_next(),
            ..m
        }) && m.step(Message::SelectPrevious) == (AppModel { list: m.list.moved_previous(), ..m }),
        m.focus == Focus::Table ==> m.step(Message::SelectNext) == (AppModel {
            table: m.table.moved_next(),
            ..m
        }) && m.step(Message::SelectPrevious) == (AppModel { table: m.table.moved_previous(), ..m }),
{
}

/// Confirming right after a non-empty list of users arrived makes the first
/// user current, starts loading its to-dos, focuses the table and names the
/// user in the table's title.
pub proof fn confirm_after_users_loaded_picks_first(m: AppModel, users: Vec<User>)
    requires
        users@.len() > 0,
    ensures
        ({
            let c = m.step(Message::UsersLoaded(users)).step(Message::Confirm);
            &&& c.current_user_id == Some(users@[0].id)
            &&& c.current_user_name == Some(users@[0].name@)
            &&& c.todos is Loading
            &&& c.focus == Focus::Table
            &&& table_title_text(c.current_user_name) == " To-do di "@ + users@[0].name@ + " "@
        }),
{
}

/// Confirming changes nothing while the users are not loaded, or when the
/// list is empty.
pub proof fn confirm_without_user_changes_nothing(m: AppModel)
    requires
        !(m.users is Loaded) || (m.users matches UsersModel::Loaded(users) && users.len() == 0),
    ensures
        m.confirmed() == m,
{
}

/// Confirming twice is the same as confirming once.
pub proof fn confirm_is_idempotent(m: AppModel)
    ensures
        m.confirmed().confirmed() == m.confirmed(),
{
}

/// A fresh list of users (or to-dos) selects its first entry exactly when it
/// is not empty, and shows the list from the top.
pub proof fn loading_selects_first_entry(m: AppModel, users: Seq<User>, todos: Seq<Todo>)
    ensures
        m.users_loaded(users).list == Selection::fresh(
            if users.len() > 0 { Some(0usize) } else { None },
        ),
        m.todos_loaded(todos).table == Selection::fresh(
            if todos.len() > 0 { Some(0usize) } else { None },
        ),
        m.todos_loaded(todos).todos == TodosModel::Loaded(todos),
{
}

/// `update` has the same effect as the state method that each application
/// message names.
pub proof fn update_dispatches_to_methods(
    m: AppModel,
    users: Vec<User>,
    todos: Vec<Todo>,
    error: String,
)
    ensures
        m.step(Message::ToggleFocus) == m.focus_toggled(),
        m.step(Message::SelectPrevious) == m.moved_previous(),
        m.step(Message::SelectNext) == m.moved_next(),
        m.step(Message::Tick) == m.spinner_advanced(),
        m.step(Message::Confirm) == m.confirmed(),
        m.step(Message::ToggleLog) == m.log_toggled(),
        m.step(Message::UsersLoaded(users)) == m.users_loaded(users@),
        m.step(Message::UsersLoadFailed(error)) == m.users_failed(error@),
        m.step(Message::TodosLoaded(todos)) == m.todos_loaded(todos@),
        m.step(Message::TodosLoadFailed(error)) == m.todos_failed(error@),
{
}

/// One change that code outside the library can make to an [`AppState`]:
/// hand it a message through `update`, or write a widget selection through
/// `list_state_mut` / `table_state_mut` (as rendering does).
pub enum Change {
    Deliver(Message),
    SetList(Selection),
    SetTable(Selection),
}

/// The state after one change.
pub open spec fn apply(m: AppModel, change: Change) -> AppModel {
    match change {
        Change::Deliver(message) => m.step(message),
        Change::SetList(sel) => AppModel { list: sel, ..m },
        Change::SetTable(sel) => AppModel { table: sel, ..m },
    }
}

/// The state after a sequence of changes, applied in order.
pub open spec fn run(m: AppModel, changes: Seq<Change>) -> AppModel
    decreases changes.len(),
{
    if changes.len() == 0 {
        m
    } else {
        run(apply(m, changes[0]), changes.drop_first())
    }
}

/// The current user's id and name are present together, and while no to-dos
/// were asked for there is no current user.
pub open spec fn current_user_consistent(m: AppModel) -> bool {
    &&& m.current_user_id.is_some() == m.current_user_name.is_some()
    &&& m.todos is Idle ==> m.current_user_id is None
}

/// One change keeps the current user consistent, and never brings the to-dos
/// back to Idle.
pub proof fn change_keeps_current_user_consistent(m: AppModel, change: Change)
    ensures
        current_user_consistent(m) ==> current_user_consistent(apply(m, change)),
        !(m.todos is Idle) ==> !(apply(m, change).todos is Idle),
{
}

/// Any sequence of changes keeps the current user consistent, and once the
/// to-dos left Idle they never come back to it.
pub proof fn run_keeps_current_user_consistent(m: AppModel, changes: Seq<Change>)
    ensures
        current_user_consistent(m) ==> current_user_consistent(run(m, changes)),
        !(m.todos is Idle) ==> !(run(m, changes).todos is Idle),
    decreases changes.len(),
{
    if changes.len() > 0 {
        change_keeps_current_user_consistent(m, changes[0]);
        run_keeps_current_user_consistent(apply(m, changes[0]), changes.drop_first());
    }
}

/// In every state reachable from the initial one, the current user's id and
/// name are present together, and Idle to-dos mean there is no current user.
pub proof fn reachable_states_have_consistent_current_user(changes: Seq<Change>)
    ensures
        current_user_consistent(run(AppModel::initial(), changes)),
{
    run_keeps_current_user_consistent(AppModel::initial(), changes);
}

/// Confirming makes the user under the list selection current, whichever
/// row is selected: its id and name become the current ones, its to-dos start
/// loading and the table gets the focus; the users, the selections, the
/// spinner and the log panel are left as they were.
pub proof fn confirm_makes_selected_user_current(m: AppModel, users: Seq<User>, i: usize)
    requires
        m.users == UsersModel::Loaded(users),
        m.list.selected == Some(i),
        i < users.len(),
    ensures
        m.confirmed().current_user_id == Some(users[i as int].id),
        m.confirmed().current_user_name == Some(users[i as int].name@),
        m.confirmed().todos == TodosModel::Loading,
        m.confirmed().focus == Focus::Table,
        m.confirmed().users == m.users,
        m.confirmed().list == m.list,
        m.confirmed().table == m.table,
        m.confirmed().spinner_frame == m.spinner_frame,
        m.confirmed().show_log == m.show_log,
{
}

/// Confirming with no row selected, or with the selection past the end of
/// the list, changes nothing.
pub proof fn confirm_without_valid_selection_changes_nothing(m: AppModel, users: Seq<User>)
    requires
        m.users == UsersModel::Loaded(users),
        m.list.selected is None || m.list.selected.unwrap() >= users.len(),
    ensures
        m.confirmed() == m,
{
}

/// Loading users stores exactly the delivered list, resets the list to its
/// top and selects the first user if there is one; nothing else changes.
pub proof fn users_loaded_holds_delivered_list(m: AppModel, users: Seq<User>)
    ensures
        m.users_loaded(users).users == UsersModel::Loaded(users),
        m.users_loaded(users).list.offset == 0,
        users.len() > 0 ==> m.users_loaded(users).list.selected == Some(0usize),
        users.len() == 0 ==> m.users_loaded(users).list.selected is None,
        m.users_loaded(users).focus == m.focus,
        m.users_loaded(users).table == m.table,
        m.users_loaded(users).todos == m.todos,
        m.users_loaded(users).current_user_id == m.current_user_id,
        m.users_loaded(users).current_user_name == m.current_user_name,
        m.users_loaded(users).spinner_frame == m.spinner_frame,
        m.users_loaded(users).show_log == m.show_log,
{
}

/// Loading to-dos stores exactly the delivered list, resets the table to its
/// top and selects the first to-do if there is one; nothing else changes.
pub proof fn todos_loaded_holds_delivered_list(m: AppModel, todos: Seq<Todo>)
    ensures
        m.todos_loaded(todos).todos == TodosModel::Loaded(todos),
        m.todos_loaded(todos).table.offset == 0,
        todos.len() > 0 ==> m.todos_loaded(todos).table.selected == Some(0usize),
        todos.len() == 0 ==> m.todos_loaded(todos).table.selected is None,
        m.todos_loaded(todos).focus == m.focus,
        m.todos_loaded(todos).list == m.list,
        m.todos_loaded(todos).users == m.users,
        m.todos_loaded(todos).current_user_id == m.current_user_id,
        m.todos_loaded(todos).current_user_name == m.current_user_name,
        m.todos_loaded(todos).spinner_frame == m.spinner_frame,
        m.todos_loaded(todos).show_log == m.show_log,
{
}

/// A failed load keeps exactly the error it was given and changes nothing
/// else.
pub proof fn failures_hold_the_error(m: AppModel, error: Seq<char>)
    ensures
        m.users_failed(error).users == UsersModel::Failed(error),
        m.users_failed(error) == (AppModel { users: m.users_failed(error).users, ..m }),
        m.todos_failed(error).todos == TodosModel::Failed(error),
        m.todos_failed(error) == (AppModel { todos: m.todos_failed(error).todos, ..m }),
{
}

/// Moving down selects the row after the selected one (the first row when
/// none is selected, saturating at `usize::MAX`); moving up selects the row
/// before it (the last row when none is selected, saturating at `0`). The
/// scroll offset is kept.
pub proof fn moves_go_one_row(s: Selection, i: usize)
    ensures
        s.moved_next().offset == s.offset,
        s.moved_previous().offset == s.offset,
        s.selected is None ==> s.moved_next().selected == Some(0usize),
        s.selected is None ==> s.moved_previous().selected == Some(usize::MAX),
        s.selected == Some(i) && i < usize::MAX ==> s.moved_next().selected == Some((i + 1) as usize),
        s.selected == Some(usize::MAX) ==> s.moved_next().selected == Some(usize::MAX),
        s.selected == Some(i) && i > 0 ==> s.moved_previous().selected == Some((i - 1) as usize),
        s.selected == Some(0usize) ==> s.moved_previous().selected == Some(0usize),
{
}

/// Each tick moves the spinner one frame on, wrapping after the last, and the
/// four frames show four different glyphs.
pub proof fn tick_moves_spinner_one_frame(m: AppModel, f: nat, g: nat)
    ensures
        m.step(Message::Tick).spinner_frame == (m.spinner_frame + 1) % (SPINNER_FRAME_COUNT as nat),
        m.step(Message::Tick) == (AppModel { spinner_frame: m.step(Message::Tick).spinner_frame, ..m }),
        f < SPINNER_FRAME_COUNT && g < SPINNER_FRAME_COUNT && f != g ==> spinner_glyph(f)
            != spinner_glyph(g),
{
}

/// Only key presses count: a release or repeat of any key yields no message;
/// a press yields the key's binding; a resize yields a `Tick` to force a
/// redraw; other events yield nothing.
pub proof fn only_presses_yield_messages(code: KeyCode)
    ensures
        event_binding(InputEvent::Key { code, press: false }) is None,
        event_binding(InputEvent::Key { code, press: true }) == key_binding(code),
        event_binding(InputEvent::Resize) == Some(Message::Tick),
        event_binding(InputEvent::Other) is None,
{
}

/// The keys do what the help line says: Down moves the focused selection one
/// row down, Up one row up, Tab switches the panel, Enter confirms, `l`
/// toggles the log, Esc and `q` quit; every other key does nothing.
pub proof fn keys_do_what_they_say(m: AppModel, c: char)
    ensures
        m.step(key_binding(KeyCode::Down).unwrap()) == m.moved_next(),
        m.step(key_binding(KeyCode::Up).unwrap()) == m.moved_previous(),
        m.step(key_binding(KeyCode::Tab).unwrap()) == m.focus_toggled(),
        m.step(key_binding(KeyCode::Enter).unwrap()) == m.confirmed(),
        m.step(key_binding(KeyCode::Char('l')).unwrap()) == m.log_toggled(),
        key_binding(KeyCode::Esc) == Some(Message::Quit),
        key_binding(KeyCode::Char('q')) == Some(Message::Quit),
        c != 'q' && c != 'l' ==> key_binding(KeyCode::Char(c)) is None,
        key_binding(KeyCode::Other) is None,
{
}

/// Switching the focus really moves it to the other panel, and showing or
/// hiding the log really flips it; nothing else changes.
pub proof fn toggles_flip_one_thing(m: AppModel)
    ensures
        m.focus_toggled().focus != m.focus,
        m.focus_toggled() == (AppModel { focus: m.focus_toggled().focus, ..m }),
        m.log_toggled().show_log == !m.show_log,
        m.log_toggled() == (AppModel { show_log: m.log_toggled().show_log, ..m }),
{
}

/// The application starts with the users loading, no to-dos asked for, no
/// current user, the list focused with nothing selected, the spinner on its
/// first frame and the log hidden.
pub proof fn initial_state(m: AppModel)
    requires
        m == AppModel::initial(),
    ensures
        m.users is Loading,
        m.todos is Idle,
        m.current_user_id is None && m.current_user_name is None,
        m.focus == Focus::List,
        m.list.selected is None && m.table.selected is None,
        m.list.offset == 0 && m.table.offset == 0,
        m.spinner_frame == 0,
        !m.show_log,
{
}

/// The spinner turns `|`, `/`, `-`, `\`.
pub proof fn spinner_turns()
    ensures
        spinner_glyph(0) == '|',
        spinner_glyph(1) == '/',
        spinner_glyph(2) == '-',
        spinner_glyph(3) == '\\',
{
}

/// The user panel shows a notice exactly while the users are not loaded: the
/// loading notice starts with the current spinner glyph, the error notice
/// ends with the error it reports.
pub proof fn list_notice_reports_state(m: AppModel, error: Seq<char>)
    ensures
        list_notice(m).is_some() == !(m.users is Loaded),
        m.users is Loading ==> list_notice(m).unwrap()[0] == spinner_glyph(m.spinner_frame),
        m.users == UsersModel::Failed(error) ==> ({
            let t = list_notice(m).unwrap();
            &&& t.len() >= error.len()
            &&& t.subrange(t.len() - error.len(), t.len() as int) == error
            &&& t.subrange(0, t.len() - error.len()) == load_error_prefix()
        }),
{
    if m.users == UsersModel::Failed(error) {
        let t = list_notice(m).unwrap();
        assert(t.subrange(t.len() - error.len(), t.len() as int) =~= error);
        assert(t.subrange(0, t.len() - error.len()) =~= load_error_prefix());
    }
}

/// The to-do panel shows a notice exactly while the to-dos are not loaded:
/// the loading notice starts with the current spinner glyph, the error notice
/// ends with the error it reports.
pub proof fn table_notice_reports_state(m: AppModel, error: Seq<char>)
    ensures
        table_notice(m).is_some() == !(m.todos is Loaded),
        m.todos is Loading ==> table_notice(m).unwrap()[0] == spinner_glyph(m.spinner_frame),
        m.todos == TodosModel::Failed(error) ==> ({
            let t = table_notice(m).unwrap();
            &&& t.len() >= error.len()
            &&& t.subrange(t.len() - error.len(), t.len() as int) == error
            &&& t.subrange(0, t.len() - error.len()) == load_error_prefix()
        }),
{
    if m.todos == TodosModel::Failed(error) {
        let t = table_notice(m).unwrap();
        assert(t.subrange(t.len() - error.len(), t.len() as int) =~= error);
        assert(t.subrange(0, t.len() - error.len()) =~= load_error_prefix());
    }
}

/// The user panel lists every user by name, in order, and nothing else.
pub proof fn panel_lists_every_user_in_order(items: Seq<String>, users: Seq<User>, i: int)
    requires
        names_of(items, users),
        0 <= i < users.len(),
    ensures
        items.len() == users.len(),
        items[i]@ == users[i].name@,
{
}

/// The to-do panel has one row per to-do, in order: the row shows the
/// to-do's id in decimal, its title, and whether it is done.
pub proof fn panel_rows_show_every_todo_in_order(rows: Seq<crate::view::TodoRow>, todos: Seq<Todo>, i: int)
    requires
        rows_of(rows, todos),
        0 <= i < todos.len(),
    ensures
        rows.len() == todos.len(),
        rows[i].id@ == decimal(todos[i].id as nat),
        rows[i].title@ == todos[i].title@,
        rows[i].status@ == status_text(todos[i].completed),
{
    assert(row_shows(rows[i], todos[i]));
}

/// A done to-do reads "Completato", an open one "Da fare".
pub proof fn status_words()
    ensures
        status_text(true) == "Completato"@,
        status_text(false) == "Da fare"@,
        status_text(true) != status_text(false),
{
    reveal_strlit("Completato");
    reveal_strlit("Da fare");
    assert(status_text(true).len() != status_text(false).len());
}

/// The title of the to-do panel names the current user, between
/// " To-do di " and a trailing space.
pub proof fn table_title_names_user(name: Seq<char>)
    ensures
        table_title_text(Some(name)) == " To-do di "@ + name + " "@,
        table_title_text(Some(name)).subrange(10, 10 + name.len() as int) == name,
{
    reveal_strlit(" To-do di ");
    reveal_strlit(" ");
    assert(table_title_text(Some(name)).subrange(10, 10 + name.len() as int) =~= name);
}

} // verus!
