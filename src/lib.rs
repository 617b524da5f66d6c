//! A checklist: todo items kept in an ordered store, mutated by position,
//! projected through a filter for display, and driven by a small session
//! state machine that hands file work back to its caller.

pub mod todo;
pub mod store;
pub mod notebox;
