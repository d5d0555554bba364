//! The operating system the tool runs on, and the outcomes of the external
//! commands that the caller runs for the library.
use vstd::prelude::*;

use crate::error::AppError;
use crate::text::concat;

verus! {

/// The operating system the tool runs on.
#[derive(Clone, Copy, PartialEq, Eq, Structural, Debug)]
pub enum Platform {
    Windows,
    Linux,
    /// Any other system; EFI variable and partition work is not supported.
    Other,
}

/// What running an external command gave.
#[derive(Debug)]
pub enum CommandRun<T> {
    /// The command could not be started; the text of the error.
    NotStarted(String),
    /// The command ran and reported failure; what it wrote to stderr.
    Failed(String),
    /// The command succeeded; what its output says.
    Succeeded(T),
}

/// A command for the caller to run: the program and its arguments.
#[derive(Debug)]
pub struct CommandLine {
    pub program: String,
    pub args: Vec<String>,
}

/// An `Efi` error whose message is `prefix` followed by `detail`.
pub open spec fn efi_error_text(e: AppError, prefix: Seq<char>, detail: Seq<char>) -> bool {
    e matches AppError::Efi { message } && message@ == prefix + detail
}

/// An `Efi` error with the message `prefix` followed by `detail`.
pub fn efi_error(prefix: &str, detail: &str) -> (e: AppError)
    ensures
        efi_error_text(e, prefix@, detail@),
{
    AppError::Efi { message: concat(prefix, detail) }
}

} // verus!
