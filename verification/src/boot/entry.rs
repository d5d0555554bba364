//! Display-friendly boot entries.
use vstd::prelude::*;

use crate::boot::load_option::{
    decode_load_option, decoded_load_option, format_guid, format_hard_drive, guid_text,
    hard_drive_text, is_active, load_option_framed, LoadOption, LoadOptionView,
};
use crate::error::AppError;
use crate::text::{format_hex4, hex4, push_char, push_str};

verus! {

/// Display-friendly representation of a parsed UEFI boot entry.
#[derive(Debug)]
pub struct BootEntryInfo {
    /// Numeric boot entry ID (e.g., 0x0001).
    pub id: u16,
    /// Human-readable description (e.g., "Windows Boot Manager").
    pub description: String,
    /// Whether LOAD_OPTION_ACTIVE is set.
    pub active: bool,
    /// File path from the device path list (e.g., `\EFI\Microsoft\Boot\bootmgfw.efi`).
    pub file_path: Option<String>,
    /// Partition GUID from the hard drive device path node.
    pub partition_guid: Option<String>,
    /// Human-readable device path summary.
    pub device_path_display: String,
    /// Raw variable bytes (for backup purposes).
    pub raw_bytes: Vec<u8>,
}

/// An optional string holds exactly the optional text.
pub open spec fn opt_text(o: Option<String>, t: Option<Seq<char>>) -> bool {
    match (o, t) {
        (Some(a), Some(b)) => a@ == b,
        (None, None) => true,
        _ => false,
    }
}

/// `info` shows the entry `id` whose variable holds `raw`, decoded as `v`.
pub open spec fn describes(info: BootEntryInfo, id: u16, raw: Seq<u8>, v: LoadOptionView) -> bool {
    &&& info.id == id
    &&& info.description@ == v.description
    &&& info.active == is_active(v.attributes)
    &&& info.raw_bytes@ == raw
    &&& match v.file_path_list {
        Some((path, hd)) => {
            &&& opt_text(info.file_path, Some(path))
            &&& opt_text(info.partition_guid, Some(guid_text(hd.partition_sig)))
            &&& info.device_path_display@ == hard_drive_text(hd) + seq!['/'] + path
        },
        None => {
            &&& info.file_path is None
            &&& info.partition_guid is None
            &&& info.device_path_display@ == "(none)"@
        },
    }
}

/// The error text efivar gives when variable content is malformed; also
/// used for bytes whose device path framing would make efivar panic.
pub open spec fn malformed_content_text() -> Seq<char> {
    "failed to parse variable content (invalid content)"@
}

/// The message of a failure to parse the entry `id`.
pub open spec fn parse_failure_text(id: u16, reason: Seq<char>) -> Seq<char> {
    "Failed to parse Boot"@ + hex4(id) + ": "@ + reason
}

/// `r` is what parsing the raw bytes of entry `id` gives: the described
/// entry when the bytes decode, else a `Parse` error naming the entry and
/// the reason.
pub open spec fn from_raw_result(r: Result<BootEntryInfo, AppError>, id: u16, raw: Seq<u8>) -> bool {
    if !load_option_framed(raw) {
        r matches Err(AppError::Parse { message }) && message@ == parse_failure_text(
            id,
            malformed_content_text(),
        )
    } else {
        match decoded_load_option(raw) {
            Ok(v) => r matches Ok(info) && describes(info, id, raw, v),
            Err(t) => r matches Err(AppError::Parse { message }) && message@ == parse_failure_text(
                id,
                t,
            ),
        }
    }
}

/// The message of a failure to parse the entry `id`.
pub fn parse_failure_message(id: u16, reason: &str) -> (s: String)
    ensures
        s@ == parse_failure_text(id, reason@),
{
    let mut s = String::from_str("Failed to parse Boot");
    let h = format_hex4(id);
    push_str(&mut s, h.as_str());
    push_str(&mut s, ": ");
    push_str(&mut s, reason);
    s
}

impl BootEntryInfo {
    /// The display form of a decoded entry.
    pub fn from_load_option(id: u16, raw_bytes: Vec<u8>, option: LoadOption) -> (info: Self)
        ensures
            describes(info, id, raw_bytes@, option@),
    {
        let active = option.attributes % 2 == 1;
        match option.file_path_list {
            Some(fpl) => {
                let mut display = format_hard_drive(&fpl.hard_drive);
                push_char(&mut display, '/');
                push_str(&mut display, fpl.file_path.as_str());
                assert(display@ =~= hard_drive_text(fpl.hard_drive) + seq!['/'] + fpl.file_path@);
                let guid = format_guid(fpl.hard_drive.partition_sig);
                BootEntryInfo {
                    id,
                    description: option.description,
                    active,
                    file_path: Some(fpl.file_path),
                    partition_guid: Some(guid),
                    device_path_display: display,
                    raw_bytes,
                }
            },
            None => BootEntryInfo {
                id,
                description: option.description,
                active,
                file_path: None,
                partition_guid: None,
                device_path_display: String::from_str("(none)"),
                raw_bytes,
            },
        }
    }

    /// Parses a raw `Boot####` variable value into a display-friendly entry.
    pub fn from_raw(id: u16, raw_bytes: Vec<u8>) -> (r: Result<Self, AppError>)
        ensures
            from_raw_result(r, id, raw_bytes@),
    {
        match decode_load_option(raw_bytes.as_slice()) {
            Ok(o) => Ok(Self::from_load_option(id, raw_bytes, o)),
            Err(None) => {
                let reason = String::from_str("failed to parse variable content (invalid content)");
                Err(AppError::Parse { message: parse_failure_message(id, reason.as_str()) })
            },
            Err(Some(t)) => Err(AppError::Parse { message: parse_failure_message(id, t.as_str()) }),
        }
    }
}

} // verus!
