//! The command-line interface: its commands, and what each command does
//! and prints.
pub mod commands;
pub mod create;
pub mod edit;
pub mod delete;
pub mod order;
pub mod entry_cmds;
pub mod backup_cmds;
pub mod esp_cmds;
