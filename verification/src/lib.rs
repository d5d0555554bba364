//! Management of UEFI boot entries and EFI System Partitions: the verified core.
pub mod text;
pub mod error;
pub mod host;
pub mod boot;
pub mod tui;
pub mod cli;
