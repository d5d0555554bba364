//! `edit`: a new description or loader path for an existing entry.
use vstd::prelude::*;
use vstd::view::View as _;

use crate::boot::load_option::{
    decode_load_option, encoded_load_option, load_option_encodable, LoadOptionView,
};
use crate::boot::manager::{
    boot_var_name, entry_read_error, entry_value, unencodable_text, BootManager,
};
use crate::boot::entry::parse_failure_message;
use crate::cli::create::arg_text;
use crate::error::{boot_id_of, parse_boot_id, AppError};
use crate::text::{format_hex4, hex4, push_str, texts};

verus! {

/// The option with the description replaced when one is given, and the
/// loader path replaced when one is given and the option has a file path.
pub open spec fn edited_option(
    v: LoadOptionView,
    description: Option<Seq<char>>,
    loader: Option<Seq<char>>,
) -> LoadOptionView {
    LoadOptionView {
        attributes: v.attributes,
        description: match description {
            Some(d) => d,
            None => v.description,
        },
        file_path_list: match (v.file_path_list, loader) {
            (Some((_, hd)), Some(l)) => Some((l, hd)),
            (f, _) => f,
        },
        optional_data: v.optional_data,
    }
}

/// Whether the arguments change anything: a description, or a loader path
/// for an option that has a file path.
pub open spec fn edit_requested(v: LoadOptionView, description: Option<Seq<char>>, loader: Option<Seq<char>>) -> bool {
    description is Some || (loader is Some && v.file_path_list is Some)
}

/// Sets a new description and/or loader path on an entry and returns the
/// lines to print.
pub fn run(
    mgr: &mut BootManager,
    id_str: &str,
    description: Option<&str>,
    loader: Option<&str>,
) -> (r: Result<Vec<String>, AppError>)
    ensures
        match boot_id_of(id_str@) {
            None => final(mgr).vars() == old(mgr).vars() && (r matches Err(
                AppError::InvalidEntryId { input },
            ) && input@ == id_str@),
            Some(id) => match entry_value(old(mgr).vars(), id) {
                None => final(mgr).vars() == old(mgr).vars() && (r matches Err(e)
                    && entry_read_error(old(mgr).vars(), id, e)),
                Some(v) => {
                    let n = edited_option(v, arg_text(description), arg_text(loader));
                    if !edit_requested(v, arg_text(description), arg_text(loader)) {
                        final(mgr).vars() == old(mgr).vars() && (r matches Ok(lines) && texts(
                            lines@,
                        ) == seq!["No changes specified."@])
                    } else if !load_option_encodable(n) {
                        final(mgr).vars() == old(mgr).vars() && (r matches Err(
                            AppError::Parse { message },
                        ) && message@ == unencodable_text(id))
                    } else {
                        &&& r matches Ok(lines) ==> final(mgr).vars() == old(mgr).vars().insert(
                            boot_var_name(id),
                            encoded_load_option(n),
                        ) && texts(lines@) == seq!["Updated Boot"@ + hex4(id)]
                        &&& r is Err ==> (r matches Err(AppError::Efi { .. }))
                        &&& r is Err ==> final(mgr).vars().remove(boot_var_name(id)) == old(
                            mgr,
                        ).vars().remove(boot_var_name(id))
                        &&& old(mgr).file_backed() ==> r is Ok
                    }
                },
            },
        },
{
    let id = match parse_boot_id(id_str) {
        Ok(id) => id,
        Err(e) => {
            return Err(e);
        },
    };
    let info = match mgr.get_entry(id) {
        Ok(info) => info,
        Err(e) => {
            return Err(e);
        },
    };
    let mut entry = match decode_load_option(info.raw_bytes.as_slice()) {
        Ok(o) => o,
        Err(None) => {
            let reason = String::from_str("failed to parse variable content (invalid content)");
            return Err(AppError::Parse { message: parse_failure_message(id, reason.as_str()) });
        },
        Err(Some(t)) => {
            return Err(AppError::Parse { message: parse_failure_message(id, t.as_str()) });
        },
    };
    let mut changed = false;
    match description {
        Some(d) => {
            entry.description = String::from_str(d);
            changed = true;
        },
        None => {},
    }
    match loader {
        Some(path) => {
            match &mut entry.file_path_list {
                Some(fpl) => {
                    fpl.file_path = String::from_str(path);
                    changed = true;
                },
                None => {},
            }
        },
        None => {},
    }
    if !changed {
        return Ok(vec![String::from_str("No changes specified.")]);
    }
    match mgr.update_entry(id, entry) {
        Ok(()) => {},
        Err(e) => {
            return Err(e);
        },
    }
    let mut line = String::from_str("Updated Boot");
    push_str(&mut line, format_hex4(id).as_str());
    let lines = vec![line];
    assert(texts(lines@) =~= seq!["Updated Boot"@ + hex4(id)]);
    Ok(lines)
}

/// Editing stores what was asked: a given description replaces the old
/// one, a given loader path becomes the file path of an entry that has one
/// (on the same partition), and nothing else changes; a loader path that
/// differs from the stored one is a change.
pub proof fn law_edit_stores_the_arguments(
    v: LoadOptionView,
    description: Option<Seq<char>>,
    loader: Option<Seq<char>>,
)
    ensures
        description matches Some(d) ==> edited_option(v, description, loader).description == d,
        description is None ==> edited_option(v, description, loader).description == v.description,
        v.file_path_list matches Some((p, hd)) ==> (loader matches Some(l) ==> edited_option(
            v,
            description,
            loader,
        ).file_path_list == Some((l, hd))),
        v.file_path_list matches Some((p, hd)) ==> (loader matches Some(l) ==> (p != l
            ==> edited_option(v, description, loader) != v && edit_requested(
            v,
            description,
            loader,
        ))),
        edited_option(v, description, loader).attributes == v.attributes,
        edited_option(v, description, loader).optional_data == v.optional_data,
{
}

} // verus!
