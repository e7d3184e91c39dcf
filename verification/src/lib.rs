//! Client-side logic of a group chat application: the data exchanged with
//! the chat server, the state of each page, and the decisions taken on user
//! input and on server events.

pub mod component;
pub mod entity;
pub mod left_nav;
pub mod path;
pub mod service;
pub mod state;
pub mod text;
