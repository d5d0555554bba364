//! `delete`: removing a boot entry, after confirmation unless forced.
use vstd::prelude::*;
use vstd::view::View as _;

use crate::boot::manager::{after_delete, boot_var_name, deletes_exactly, entry_read_error, entry_value, BootManager};
use crate::error::{boot_id_of, parse_boot_id, AppError};
use crate::text::{format_hex4, hex4, push_str, texts};

verus! {

/// An entry about to be deleted, and the question to ask first.
#[derive(Debug)]
pub struct DeletePlan {
    pub id: u16,
    pub description: String,
    pub prompt: String,
}

/// The confirmation question for deleting entry `id` described so.
pub open spec fn delete_prompt(id: u16, description: Seq<char>) -> Seq<char> {
    "Delete Boot"@ + hex4(id) + " ("@ + description + ")? This cannot be undone."@
}

/// Looks up the entry that `id_str` names, and the question to ask before
/// deleting it.
pub fn prepare(mgr: &BootManager, id_str: &str) -> (r: Result<DeletePlan, AppError>)
    ensures
        match boot_id_of(id_str@) {
            None => r matches Err(AppError::InvalidEntryId { input }) && input@ == id_str@,
            Some(id) => match entry_value(mgr.vars(), id) {
                None => r matches Err(e) && entry_read_error(mgr.vars(), id, e),
                Some(v) => r matches Ok(p) && p.id == id && p.description@ == v.description
                    && p.prompt@ == delete_prompt(id, v.description),
            },
        },
{
    let id = match parse_boot_id(id_str) {
        Ok(id) => id,
        Err(e) => {
            return Err(e);
        },
    };
    let entry = match mgr.get_entry(id) {
        Ok(info) => info,
        Err(e) => {
            return Err(e);
        },
    };
    let mut prompt = String::from_str("Delete Boot");
    push_str(&mut prompt, format_hex4(id).as_str());
    push_str(&mut prompt, " (");
    push_str(&mut prompt, entry.description.as_str());
    push_str(&mut prompt, ")? This cannot be undone.");
    Ok(DeletePlan { id, description: entry.description, prompt })
}

/// Deletes the planned entry and returns the line to print.
pub fn run(mgr: &mut BootManager, plan: &DeletePlan) -> (r: Result<Vec<String>, AppError>)
    ensures
        old(mgr).file_backed() && old(mgr).vars().contains_key(boot_var_name(plan.id)) ==> r is Ok,
        r is Ok && deletes_exactly(old(mgr).file_backed(), old(mgr).vars(), plan.id)
            ==> final(mgr).vars() == after_delete(old(mgr).vars(), plan.id),
        r is Ok ==> final(mgr).vars().remove("BootOrder"@) == old(mgr).vars().remove(
            boot_var_name(plan.id),
        ).remove("BootOrder"@),
        r matches Ok(lines) ==> texts(lines@) == seq![
            "Deleted Boot"@ + hex4(plan.id) + " ("@ + plan.description@ + ")"@,
        ],
        r matches Err(AppError::EntryNotFound { .. }) ==> final(mgr).vars() == old(mgr).vars(),
        r is Err ==> (r == Err::<Vec<String>, AppError>(AppError::EntryNotFound { id: plan.id })
            && final(mgr).vars() == old(mgr).vars()) || (r matches Err(AppError::Efi { .. })
            && (old(mgr).deletes() ==> final(mgr).vars().remove("BootOrder"@) == old(
            mgr,
        ).vars().remove(boot_var_name(plan.id)).remove("BootOrder"@)) && (!old(mgr).deletes()
            ==> final(mgr).vars() == old(mgr).vars())),
{
    match mgr.delete_entry(plan.id) {
        Ok(()) => {},
        Err(e) => {
            return Err(e);
        },
    }
    let mut line = String::from_str("Deleted Boot");
    push_str(&mut line, format_hex4(plan.id).as_str());
    push_str(&mut line, " (");
    push_str(&mut line, plan.description.as_str());
    push_str(&mut line, ")");
    let lines = vec![line];
    assert(texts(lines@) =~= seq![
        "Deleted Boot"@ + hex4(plan.id) + " ("@ + plan.description@ + ")"@,
    ]);
    Ok(lines)
}

} // verus!
