//! The verified core of a composable, Elm-like terminal UI framework: scroll
//! arithmetic, selection and routing decisions, key bindings, the message
//! queue, debouncing and event-source bookkeeping, and the event loop's step
//! decision. Drawing and I/O live with the terminal front end.

pub mod base;
pub mod component;
pub mod event;
pub mod layout;
pub mod log;
pub mod scroll;
mod shared;
pub mod utils;
