//! The state of the terminal interface.

pub mod app;
pub mod input;
