//! A terminal counter, as a verified state machine.
//!
//! The crate holds everything the counter application decides: how a key
//! changes the counter, which input is ignored, when the loop stops, and what
//! the screen shows. Reading the keyboard and owning the terminal are left to
//! the program built around it.

pub mod app;
pub mod decimal;
pub mod error;
pub mod event;
pub mod lemmas;
pub mod screen;
