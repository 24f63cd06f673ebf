use vstd::prelude::*;

use crate::data::{Todo, User};
use crate::text::{decimal, decimal_string, is_canonical_decimal, joined, read_decimal};
use crate::update::Message;

verus! {

/// Where the list of users is fetched from.
pub open spec fn users_url_text() -> Seq<char> {
    "https://jsonplaceholder.typicode.com/users"@
}

/// Where the to-dos of a user are fetched from, before the user's id.
pub open spec fn todos_url_prefix() -> Seq<char> {
    "https://jsonplaceholder.typicode.com/todos?userId="@
}

/// The address of the list of users.
pub fn users_url() -> (r: String)
    ensures
        r@ == users_url_text(),
{
    String::from_str("https://jsonplaceholder.typicode.com/users")
}

/// The address of the to-dos of user `user_id`.
pub fn todos_url(user_id: u32) -> (r: String)
    ensures
        r@ == todos_url_prefix() + decimal(user_id as nat),
        is_canonical_decimal(r@.subrange(todos_url_prefix().len() as int, r@.len() as int)),
        read_decimal(r@.subrange(todos_url_prefix().len() as int, r@.len() as int)) == user_id,
{
    let id = decimal_string(user_id);
    let r = joined("https://jsonplaceholder.typicode.com/todos?userId=", id.as_str());
    assert(r@.subrange(todos_url_prefix().len() as int, r@.len() as int) =~= id@);
    r
}

/// The message that reports the outcome of fetching the users; the error is
/// the text of the failure.
pub fn users_fetched(result: Result<Vec<User>, String>) -> (r: Message)
    ensures
        match result {
            Ok(users) => r == Message::UsersLoaded(users),
            Err(error) => r == Message::UsersLoadFailed(error),
        },
{
    match result {
        Ok(users) => Message::UsersLoaded(users),
        Err(errore) => Message::UsersLoadFailed(errore),
    }
}

/// The message that reports the outcome of fetching a user's to-dos; the
/// error is the text of the failure.
pub fn todos_fetched(result: Result<Vec<Todo>, String>) -> (r: Message)
    ensures
        match result {
            Ok(todos) => r == Message::TodosLoaded(todos),
            Err(error) => r == Message::TodosLoadFailed(error),
        },
{
    match result {
        Ok(todos) => Message::TodosLoaded(todos),
        Err(errore) => Message::TodosLoadFailed(errore),
    }
}

} // verus!
