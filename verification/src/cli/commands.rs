//! The parsed command line.
use vstd::prelude::*;

verus! {

/// The parsed command line.
#[derive(Debug)]
pub struct Cli {
    pub command: Commands,
    /// Enable verbose/debug output.
    pub verbose: bool,
    /// Output in JSON format (where supported).
    pub json: bool,
}

/// The subcommands.
#[derive(Debug)]
pub enum Commands {
    /// List all boot entries in boot order.
    List,
    /// Show detailed information about a boot entry.
    Info { id: String },
    /// Create a new boot entry.
    Create {
        description: String,
        loader: String,
        partition: Option<String>,
        id: Option<String>,
    },
    /// Delete a boot entry.
    Delete { id: String, force: bool },
    /// Edit an existing boot entry.
    Edit { id: String, description: Option<String>, loader: Option<String> },
    /// Set the boot order.
    Order { ids: String },
    /// Set BootNext for a one-time boot override.
    Next { id: String },
    /// Enable a boot entry (set LOAD_OPTION_ACTIVE).
    Enable { id: String },
    /// Disable a boot entry (clear LOAD_OPTION_ACTIVE).
    Disable { id: String },
    /// Export all boot entries to a JSON backup file.
    Backup { file: String },
    /// Restore boot entries from a JSON backup file.
    Restore { file: String, force: bool },
    /// Launch interactive TUI mode.
    Tui,
    /// Manage ESP partition flags.
    Esp { action: EspAction },
}

/// The ESP subcommands.
#[derive(Debug)]
pub enum EspAction {
    /// List all GPT partitions.
    List,
    /// Set a partition's type GUID to ESP.
    SetFlag { disk: String, partition: u32 },
    /// Clear the ESP flag (revert to Basic Data).
    Clear { disk: String, partition: u32 },
    /// Show bootloaders found on the ESP.
    Bootloader,
}

} // verus!
