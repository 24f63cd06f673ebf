//! Elm-like core of a terminal user interface: messages, application state,
//! the update step, key mapping and the content that the panels display.

pub mod data;
pub mod selection;
pub mod state;
pub mod update;
pub mod event;
pub mod text;
pub mod api;
pub mod view;
pub mod laws;
