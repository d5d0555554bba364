//! `create`: a new boot entry.
use vstd::prelude::*;
use vstd::view::View as _;

use crate::boot::load_option::{
    encoded_load_option, load_option_encodable, new_entry_option_of, new_entry_view, parse_guid,
    parsed_guid,
};
use crate::boot::manager::{after_create, create_stopped, lowest_free_id, unencodable_text, BootManager};
use crate::error::{boot_id_of, parse_boot_id, AppError};
use crate::text::{concat, format_hex4, hex4, push_str, texts};

verus! {

/// The partition GUID used when none is given.
pub const NIL_GUID: &'static str = "00000000-0000-0000-0000-000000000000";

/// The ID a new entry gets: the one given, or the lowest free one.
pub open spec fn chosen_id(vars: crate::boot::manager::Vars, id: Option<Seq<char>>) -> Option<u16> {
    match id {
        Some(s) => boot_id_of(s),
        None => lowest_free_id(vars),
    }
}

/// The partition GUID text of a new entry: the one given, or the nil GUID.
pub open spec fn partition_text(partition: Option<Seq<char>>) -> Seq<char> {
    match partition {
        Some(p) => p,
        None => NIL_GUID@,
    }
}

/// What `create` prints after creating entry `id`.
pub open spec fn created_lines(id: u16, description: Seq<char>, loader: Seq<char>, partition: Option<Seq<char>>) -> Seq<Seq<char>> {
    let head = seq![
        "Created boot entry Boot"@ + hex4(id) + ": "@ + description,
        "  Loader: "@ + loader,
    ];
    match partition {
        Some(p) => head.push("  Partition: "@ + p),
        None => head,
    }
}

/// The text of an optional string argument.
pub open spec fn arg_text(o: Option<&str>) -> Option<Seq<char>> {
    match o {
        Some(s) => Some(s@),
        None => None,
    }
}

/// Creates a boot entry with the given description and loader path on
/// partition 1 of the GPT disk whose partition GUID is given (the nil GUID
/// when none is), under the given ID or else the lowest free one, and
/// returns the lines to print.
pub fn run(
    mgr: &mut BootManager,
    description: &str,
    loader: &str,
    partition: Option<&str>,
    id: Option<&str>,
) -> (r: Result<Vec<String>, AppError>)
    ensures
        match chosen_id(old(mgr).vars(), arg_text(id)) {
            None => final(mgr).vars() == old(mgr).vars() && (match id {
                Some(s) => r matches Err(AppError::InvalidEntryId { input }) && input@ == s@,
                None => r matches Err(AppError::Efi { message }) && message@
                    == "No free boot entry IDs available"@,
            }),
            Some(eid) => match parsed_guid(partition_text(arg_text(partition))) {
                Err(e) => final(mgr).vars() == old(mgr).vars() && (r matches Err(
                    AppError::Parse { message },
                ) && message@ == "Invalid partition GUID: "@ + e),
                Ok(sig) => {
                    let o = new_entry_view(description@, loader@, sig);
                    &&& !load_option_encodable(o) ==> final(mgr).vars() == old(mgr).vars()
                        && (r matches Err(AppError::Parse { message }) && message@
                        == unencodable_text(eid))
                    &&& r matches Ok(lines) ==> final(mgr).vars() == after_create(
                        old(mgr).vars(),
                        eid,
                        encoded_load_option(o),
                    ) && texts(lines@) == created_lines(
                        eid,
                        description@,
                        loader@,
                        arg_text(partition),
                    )
                    &&& load_option_encodable(o) && r is Err ==> (r matches Err(AppError::Efi { .. }))
                    &&& load_option_encodable(o) && old(mgr).file_backed() ==> r is Ok
                    &&& load_option_encodable(o) && r is Err ==> create_stopped(
                        old(mgr).vars(),
                        final(mgr).vars(),
                        eid,
                        encoded_load_option(o),
                    )
                },
            },
        },
{
    let found = match id {
        Some(s) => parse_boot_id(s),
        None => mgr.next_free_id(),
    };
    let entry_id = match found {
        Ok(v) => v,
        Err(e) => {
            return Err(e);
        },
    };
    let text = match partition {
        Some(p) => p,
        None => NIL_GUID,
    };
    let sig = match parse_guid(text) {
        Ok(g) => g,
        Err(e) => {
            return Err(AppError::Parse { message: concat("Invalid partition GUID: ", e.as_str()) });
        },
    };
    let option = new_entry_option_of(description, loader, sig);
    match mgr.create_entry(entry_id, option) {
        Ok(()) => {},
        Err(e) => {
            return Err(e);
        },
    }
    let mut first = String::from_str("Created boot entry Boot");
    push_str(&mut first, format_hex4(entry_id).as_str());
    push_str(&mut first, ": ");
    push_str(&mut first, description);
    let mut lines = vec![first, concat("  Loader: ", loader)];
    match partition {
        Some(p) => lines.push(concat("  Partition: ", p)),
        None => {},
    }
    assert(texts(lines@) =~= created_lines(entry_id, description@, loader@, arg_text(partition)));
    Ok(lines)
}

} // verus!
