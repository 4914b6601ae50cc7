//! Menu bar configuration and menu-selection routing for the kakukoto. desktop shell.
//!
//! The crate holds the two read-only tables that the shell is built from: the
//! menu tree that is installed into the main window, and the dispatch table that
//! maps the identifier of a selected item to the effect the shell performs.
//! Nothing in here talks to a window system; a thin adapter hands identifiers
//! in and carries the returned actions out.

pub mod dispatch;
pub mod error;
pub mod greeting;
pub mod menu;
pub mod shell;
pub mod text;
