//! The state machine behind the Ringboard clipboard-history window: which entries
//! are listed and in what order, where the keyboard highlight moves, what each
//! key, click and server reply does to the window's state and which requests go
//! out to the clipboard server.

mod outside;
mod shortcuts;

pub mod app;
pub mod entries;
pub mod handlers;
pub mod keys;
pub mod laws;
pub mod model;
pub mod pipeline;
pub mod state;
pub mod text;
pub mod update;

pub use shortcuts::{shortcuts, Shortcut};
