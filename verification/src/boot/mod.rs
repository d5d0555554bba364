//! The boot entry, variable store, backup and ESP logic.
pub mod esp;
pub mod partitions;
pub mod privilege;
pub mod load_option;
pub mod store;
pub mod entry;
pub mod manager;
pub mod base64;
pub mod backup;
