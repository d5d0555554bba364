//! The interactive terminal UI: its state, actions and key handling.
pub mod app;
pub mod keys;
