use vstd::prelude::*;

use crate::data::{Todo, User};
use crate::state::{AppModel, AppState, Focus};

verus! {

/// Everything that can happen to the application: keys, the periodic tick
/// and the results of background work.
#[derive(Debug, Clone)]
pub enum Message {
    // -- Control messages: handled by the main loop, never change the state --
    Quit,
    InputError(String),
    // -- Application messages: handled by `update` --
    ToggleFocus,
    SelectPrevious,
    SelectNext,
    Confirm,
    Tick,
    ToggleLog,
    UsersLoaded(Vec<User>),
    UsersLoadFailed(String),
    TodosLoaded(Vec<Todo>),
    TodosLoadFailed(String),
}

impl Message {
    /// Control messages are the ones the main loop intercepts.
    pub open spec fn is_control(self) -> bool {
        self is Quit || self is InputError
    }
}

impl AppModel {
    /// The state after `update` handles `message`.
    pub open spec fn step(self, message: Message) -> AppModel {
        match message {
            Message::ToggleFocus => self.focus_toggled(),
            Message::SelectPrevious => self.moved_previous(),
            Message::SelectNext => self.moved_next(),
            Message::Tick => self.spinner_advanced(),
            Message::Confirm => self.confirmed(),
            Message::ToggleLog => self.log_toggled(),
            Message::UsersLoaded(users) => self.users_loaded(users@),
            Message::UsersLoadFailed(error) => self.users_failed(error@),
            Message::TodosLoaded(todos) => self.todos_loaded(todos@),
            Message::TodosLoadFailed(error) => self.todos_failed(error@),
            Message::Quit | Message::InputError(_) => self,
        }
    }
}

/// Applies an application message to the state; control messages leave it
/// unchanged.
pub fn update(state: &mut AppState, message: Message)
    ensures
        final(state)@ == old(state)@.step(message),
{
    match message {
        Message::ToggleFocus => state.toggle_focus(),
        Message::SelectPrevious => state.select_previous(),
        Message::SelectNext => state.select_next(),
        Message::Tick => state.advance_spinner(),
        Message::Confirm => state.confirm_selection(),
        Message::ToggleLog => state.toggle_log(),
        Message::UsersLoaded(users) => state.set_users(users),
        Message::UsersLoadFailed(errore) => state.set_users_error(errore),
        Message::TodosLoaded(todos) => state.set_todos(todos),
        Message::TodosLoadFailed(errore) => state.set_todos_error(errore),
        // Control messages are intercepted by the main loop and never reach here.
        Message::Quit | Message::InputError(_) => {},
    }
}

/// What the main loop does after a message has been handled.
#[derive(Debug)]
pub enum LoopAction {
    /// Draw the next frame and wait for the next message.
    Continue,
    /// Leave the loop and restore the terminal.
    Quit,
    /// Leave the loop with this error.
    Fail(String),
    /// Start loading the to-dos of this user in the background, then go on.
    FetchTodos(u32),
}

/// The main loop's decision for one incoming message.
///
/// `Quit` ends the loop and `InputError` fails it, both without touching the
/// state. `Confirm` is applied only while the list has the focus, and then
/// asks for the to-dos of the current user, if there is one; with the table
/// focused it is ignored. Every other message goes through `update`.
pub fn handle_message(state: &mut AppState, message: Message) -> (action: LoopAction)
    ensures
        message is Quit ==> action is Quit && final(state)@ == old(state)@,
        message is InputError ==> (action matches LoopAction::Fail(e) && message == Message::InputError(e))
            && final(state)@ == old(state)@,
        message is Confirm && old(state)@.focus == Focus::List ==> {
            &&& final(state)@ == old(state)@.confirmed()
            &&& match final(state)@.current_user_id {
                Some(id) => action == LoopAction::FetchTodos(id),
                None => action is Continue,
            }
        },
        message is Confirm && old(state)@.focus == Focus::Table ==> action is Continue
            && final(state)@ == old(state)@,
        !message.is_control() && !(message is Confirm) ==> action is Continue
            && final(state)@ == old(state)@.step(message),
{
    match message {
        Message::Quit => LoopAction::Quit,
        Message::InputError(errore) => LoopAction::Fail(errore),
        Message::Confirm => {
            if state.is_list_focused() {
                update(state, Message::Confirm);
                match state.current_user_id() {
                    Some(user_id) => LoopAction::FetchTodos(user_id),
                    None => LoopAction::Continue,
                }
            } else {
                LoopAction::Continue
            }
        },
        message => {
            update(state, message);
            LoopAction::Continue
        },
    }
}

} // verus!
