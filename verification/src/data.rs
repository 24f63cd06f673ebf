use vstd::prelude::*;

verus! {

/// A user as delivered by the remote service.
#[derive(Debug, Clone, PartialEq, Eq)]
pub struct User {
    pub id: u32,
    pub name: String,
}

/// A to-do item of one user.
#[derive(Debug, Clone, PartialEq, Eq)]
pub struct Todo {
    pub id: u32,
    pub title: String,
    pub completed: bool,
}

} // verus!
