//! Whether the process may access EFI variables, and how to get the
//! privileges when it may not.
use vstd::prelude::*;

use crate::error::AppError;
use crate::host::Platform;

verus! {

/// What the caller found out about the process's access to EFI variables.
#[derive(Debug)]
pub enum PrivilegeProbe {
    /// Windows: whether the user is an administrator (`IsUserAnAdmin`).
    Windows { admin: bool },
    /// Linux: whether `/sys/firmware/efi/efivars` exists, and whether its
    /// directory could be read.
    Linux { efivars_exist: bool, efivars_readable: bool },
    /// Any other system: nothing is checked.
    Other,
}

/// The `Privilege` error with the given message.
pub open spec fn privilege_error(r: Result<(), AppError>, message: Seq<char>) -> bool {
    r matches Err(AppError::Privilege { message: m }) && m@ == message
}

/// Check whether the current process has sufficient privileges to access
/// EFI variables: an administrator on Windows; on Linux, an efivarfs that
/// exists and can be read.
pub fn check_privileges(probe: PrivilegeProbe) -> (r: Result<(), AppError>)
    ensures
        match probe {
            PrivilegeProbe::Windows { admin } => if admin {
                r is Ok
            } else {
                privilege_error(
                    r,
                    "This program must be run as Administrator to access EFI variables"@,
                )
            },
            PrivilegeProbe::Linux { efivars_exist, efivars_readable } => if !efivars_exist {
                privilege_error(
                    r,
                    "EFI variables not available. Ensure you booted in UEFI mode and efivarfs is mounted"@,
                )
            } else if !efivars_readable {
                privilege_error(
                    r,
                    "Cannot read /sys/firmware/efi/efivars — insufficient permissions"@,
                )
            } else {
                r is Ok
            },
            PrivilegeProbe::Other => r is Ok,
        },
{
    match probe {
        PrivilegeProbe::Windows { admin } => {
            if !admin {
                return Err(
                    AppError::Privilege {
                        message: String::from_str(
                            "This program must be run as Administrator to access EFI variables",
                        ),
                    },
                );
            }
            Ok(())
        },
        PrivilegeProbe::Linux { efivars_exist, efivars_readable } => {
            if !efivars_exist {
                return Err(
                    AppError::Privilege {
                        message: String::from_str(
                            "EFI variables not available. Ensure you booted in UEFI mode and efivarfs is mounted",
                        ),
                    },
                );
            }
            if !efivars_readable {
                return Err(
                    AppError::Privilege {
                        message: String::from_str(
                            "Cannot read /sys/firmware/efi/efivars — insufficient permissions",
                        ),
                    },
                );
            }
            Ok(())
        },
        PrivilegeProbe::Other => Ok(()),
    }
}

/// A human-readable hint for how to get the required privileges.
pub fn privilege_hint(platform: Platform) -> (r: &'static str)
    ensures
        r@ == match platform {
            Platform::Windows => "Run this program as Administrator (right-click → Run as administrator)"@,
            Platform::Linux => "Run this program as root, or ensure /sys/firmware/efi/efivars is mounted"@,
            Platform::Other => "EFI variable access is not supported on this platform"@,
        },
{
    match platform {
        Platform::Windows => "Run this program as Administrator (right-click → Run as administrator)",
        Platform::Linux => "Run this program as root, or ensure /sys/firmware/efi/efivars is mounted",
        Platform::Other => "EFI variable access is not supported on this platform",
    }
}

} // verus!
