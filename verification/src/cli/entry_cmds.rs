//! `info`, `list`, `next`, `enable` and `disable`: what they do to the
//! entries and what they print.
use vstd::prelude::*;
use vstd::view::View as _;

use crate::boot::entry::BootEntryInfo;
use crate::boot::load_option::{encoded_load_option, is_active, load_option_encodable, LoadOptionView};
use crate::boot::manager::{
    boot_var_name, entry_read_error, entry_value, law_toggle_flips_only_active, toggled,
    u16_le_bytes, unencodable_text, BootManager,
};
use crate::error::{boot_id_of, parse_boot_id, AppError};
use crate::text::{
    concat, decimal, format_decimal, format_hex2_lower, format_hex4, hex2_lower, hex4, push_str,
    texts,
};

verus! {

/// The bytes as pairs of lower-case hexadecimal digits separated by spaces.
pub open spec fn hex_bytes(b: Seq<u8>) -> Seq<char>
    decreases b.len(),
{
    if b.len() == 0 {
        Seq::empty()
    } else if b.len() == 1 {
        hex2_lower(b[0])
    } else {
        hex_bytes(b.drop_last()) + " "@ + hex2_lower(b.last())
    }
}

/// At most `max` bytes in hexadecimal, followed by `" ..."` when there were
/// more.
pub open spec fn hex_preview_text(data: Seq<u8>, max: nat) -> Seq<char> {
    if data.len() > max {
        hex_bytes(data.take(max as int)) + " ..."@
    } else {
        hex_bytes(data)
    }
}

/// At most `max` bytes in hexadecimal (`"{:02x}"` each, separated by
/// spaces), followed by `" ..."` when there were more.
pub fn hex_preview(data: &[u8], max: usize) -> (s: String)
    ensures
        s@ == hex_preview_text(data@, max as nat),
{
    let truncated = data.len() > max;
    let n = if truncated {
        max
    } else {
        data.len()
    };
    let mut s = String::new();
    let mut i: usize = 0;
    while i < n
        invariant
            i <= n <= data.len(),
            s@ == hex_bytes(data@.take(i as int)),
        decreases n - i,
    {
        if i > 0 {
            push_str(&mut s, " ");
        }
        push_str(&mut s, format_hex2_lower(data[i]).as_str());
        proof {
            assert(data@.take(i + 1).drop_last() =~= data@.take(i as int));
            if i == 0 {
                assert(data@.take(0) =~= Seq::<u8>::empty());
            }
        }
        i = i + 1;
    }
    if truncated {
        push_str(&mut s, " ...");
    } else {
        assert(data@.take(n as int) =~= data@);
    }
    s
}

/// Reads the entry that `id_str` names.
pub fn info(mgr: &BootManager, id_str: &str) -> (r: Result<BootEntryInfo, AppError>)
    ensures
        match boot_id_of(id_str@) {
            None => r matches Err(AppError::InvalidEntryId { input }) && input@ == id_str@,
            Some(id) => match entry_value(mgr.vars(), id) {
                None => r matches Err(e) && entry_read_error(mgr.vars(), id, e),
                Some(v) => r matches Ok(info) && crate::boot::entry::describes(
                    info,
                    id,
                    mgr.vars()[boot_var_name(id)],
                    v,
                ),
            },
        },
{
    let id = match parse_boot_id(id_str) {
        Ok(id) => id,
        Err(e) => {
            return Err(e);
        },
    };
    mgr.get_entry(id)
}

/// The text of an optional value, or the placeholder.
pub open spec fn or_text(o: Option<String>, placeholder: Seq<char>) -> Seq<char> {
    match o {
        Some(s) => s@,
        None => placeholder,
    }
}

/// "Yes" or "No".
pub open spec fn yes_no(b: bool) -> Seq<char> {
    if b {
        "Yes"@
    } else {
        "No"@
    }
}

/// What `info` prints for an entry.
pub open spec fn info_text(e: BootEntryInfo) -> Seq<Seq<char>> {
    seq![
        "Boot Entry "@ + hex4(e.id),
        "  Description:  "@ + e.description@,
        "  Active:       "@ + yes_no(e.active),
        "  File Path:    "@ + or_text(e.file_path, "(none)"@),
        "  Partition:    "@ + or_text(e.partition_guid, "(none)"@),
        "  Device Path:  "@ + e.device_path_display@,
        "  Raw Size:     "@ + decimal(e.raw_bytes@.len()) + " bytes"@,
        "  Raw (hex):    "@ + hex_preview_text(e.raw_bytes@, 64),
    ]
}

fn or_text_exec<'a>(o: &'a Option<String>, placeholder: &'a str) -> (s: &'a str)
    ensures
        s@ == or_text(*o, placeholder@),
{
    match o {
        Some(s) => s.as_str(),
        None => placeholder,
    }
}

/// The lines `info` prints for an entry (without `--json`).
pub fn info_lines(e: &BootEntryInfo) -> (lines: Vec<String>)
    ensures
        texts(lines@) == info_text(*e),
{
    let mut raw_size = concat("  Raw Size:     ", format_decimal(e.raw_bytes.len() as u128).as_str());
    push_str(&mut raw_size, " bytes");
    let lines = vec![
        concat("Boot Entry ", format_hex4(e.id).as_str()),
        concat("  Description:  ", e.description.as_str()),
        concat("  Active:       ", if e.active { "Yes" } else { "No" }),
        concat("  File Path:    ", or_text_exec(&e.file_path, "(none)")),
        concat("  Partition:    ", or_text_exec(&e.partition_guid, "(none)")),
        concat("  Device Path:  ", e.device_path_display.as_str()),
        raw_size,
        concat("  Raw (hex):    ", hex_preview(e.raw_bytes.as_slice(), 64).as_str()),
    ];
    assert(texts(lines@) =~= info_text(*e));
    lines
}

/// The marker column of `list`: `*` for `BootCurrent`, `N` for `BootNext`.
pub open spec fn marker(id: u16, current: Option<u16>, next: Option<u16>) -> Seq<char> {
    (if current == Some(id) {
        "*"@
    } else {
        Seq::empty()
    }) + (if next == Some(id) {
        "N"@
    } else {
        Seq::empty()
    })
}

/// The row `list` shows for an entry: marker, ID, description, active,
/// file path.
pub open spec fn list_row(e: BootEntryInfo, current: Option<u16>, next: Option<u16>) -> Seq<Seq<char>> {
    seq![
        marker(e.id, current, next),
        hex4(e.id),
        e.description@,
        yes_no(e.active),
        or_text(e.file_path, "-"@),
    ]
}

/// The rows of the `list` table, one per entry.
pub fn list_rows(entries: &Vec<BootEntryInfo>, current: Option<u16>, next: Option<u16>) -> (rows: Vec<Vec<String>>)
    ensures
        rows@.len() == entries@.len(),
        forall|i: int|
            0 <= i < rows@.len() ==> texts(#[trigger] rows@[i]@) == list_row(
                entries@[i],
                current,
                next,
            ),
{
    let mut rows: Vec<Vec<String>> = Vec::new();
    let mut i: usize = 0;
    while i < entries.len()
        invariant
            i <= entries@.len(),
            rows@.len() == i,
            forall|k: int|
                0 <= k < i ==> texts(#[trigger] rows@[k]@) == list_row(entries@[k], current, next),
        decreases entries.len() - i,
    {
        let e = &entries[i];
        let mut m = String::new();
        if current == Some(e.id) {
            push_str(&mut m, "*");
        }
        if next == Some(e.id) {
            push_str(&mut m, "N");
        }
        assert(m@ =~= marker(e.id, current, next));
        let row = vec![
            m,
            format_hex4(e.id),
            e.description.clone(),
            String::from_str(if e.active { "Yes" } else { "No" }),
            String::from_str(or_text_exec(&e.file_path, "-")),
        ];
        assert(texts(row@) =~= list_row(*e, current, next));
        rows.push(row);
        i = i + 1;
    }
    rows
}

/// `"Boot####"` followed by ` (description)`.
pub open spec fn labelled(id: u16, description: Seq<char>) -> Seq<char> {
    "Boot"@ + hex4(id) + " ("@ + description + ")"@
}

fn labelled_exec(id: u16, description: &str) -> (s: String)
    ensures
        s@ == labelled(id, description@),
{
    let mut s = String::from_str("Boot");
    push_str(&mut s, format_hex4(id).as_str());
    push_str(&mut s, " (");
    push_str(&mut s, description);
    push_str(&mut s, ")");
    s
}

/// Sets `BootNext` to the entry that `id_str` names, which must exist, and
/// returns the lines to print.
pub fn next(mgr: &mut BootManager, id_str: &str) -> (r: Result<Vec<String>, AppError>)
    ensures
        match boot_id_of(id_str@) {
            None => final(mgr).vars() == old(mgr).vars() && (r matches Err(
                AppError::InvalidEntryId { input },
            ) && input@ == id_str@),
            Some(id) => match entry_value(old(mgr).vars(), id) {
                None => final(mgr).vars() == old(mgr).vars() && (r matches Err(e)
                    && entry_read_error(old(mgr).vars(), id, e)),
                Some(v) => {
                    &&& r matches Ok(lines) ==> final(mgr).vars() == old(mgr).vars().insert(
                        "BootNext"@,
                        u16_le_bytes(seq![id]),
                    ) && texts(lines@) == seq![
                        "BootNext set to "@ + labelled(id, v.description),
                        "The system will boot this entry on next reboot only."@,
                    ]
                    &&& r is Err ==> (r matches Err(AppError::Efi { .. }))
                    &&& r is Err ==> final(mgr).vars().remove("BootNext"@) == old(mgr).vars().remove(
                        "BootNext"@,
                    )
                    &&& old(mgr).file_backed() ==> r is Ok
                },
            },
        },
{
    let id = match parse_boot_id(id_str) {
        Ok(id) => id,
        Err(e) => {
            return Err(e);
        },
    };
    let entry = match mgr.get_entry(id) {
        Ok(info) => info,
        Err(e) => {
            return Err(e);
        },
    };
    match mgr.set_boot_next(id) {
        Ok(()) => {},
        Err(e) => {
            return Err(e);
        },
    }
    let lines = vec![
        concat("BootNext set to ", labelled_exec(id, entry.description.as_str()).as_str()),
        String::from_str("The system will boot this entry on next reboot only."),
    ];
    assert(texts(lines@) =~= seq![
        "BootNext set to "@ + labelled(id, entry.description@),
        "The system will boot this entry on next reboot only."@,
    ]);
    Ok(lines)
}

/// What `enable` (`enable` true) or `disable` does and prints.
pub open spec fn switch_outcome(
    before: crate::boot::manager::Vars,
    after: crate::boot::manager::Vars,
    file: bool,
    id_str: Seq<char>,
    enable: bool,
    r: Result<Vec<String>, AppError>,
) -> bool {
    match boot_id_of(id_str) {
        None => after == before && (r matches Err(AppError::InvalidEntryId { input }) && input@
            == id_str),
        Some(id) => match entry_value(before, id) {
            None => after == before && (r matches Err(e) && entry_read_error(before, id, e)),
            Some(v) => if is_active(v.attributes) == enable {
                after == before && (r matches Ok(lines) && texts(lines@) == seq![
                    labelled(id, v.description) + if enable {
                        " is already enabled."@
                    } else {
                        " is already disabled."@
                    },
                ])
            } else {
                &&& !load_option_encodable(toggled(v)) ==> after == before && (r matches Err(
                    AppError::Parse { message },
                ) && message@ == unencodable_text(id))
                &&& r matches Ok(lines) ==> after == before.insert(
                    boot_var_name(id),
                    encoded_load_option(toggled(v)),
                ) && texts(lines@) == seq![
                    (if enable {
                        "Enabled "@
                    } else {
                        "Disabled "@
                    }) + labelled(id, v.description),
                ]
                &&& r is Err && !(r matches Err(AppError::Efi { .. })) ==> after == before
                &&& r is Err ==> after.remove(boot_var_name(id)) == before.remove(boot_var_name(id))
                &&& file && load_option_encodable(toggled(v)) ==> r is Ok
            },
        },
    }
}

fn switch(mgr: &mut BootManager, id_str: &str, enable: bool) -> (r: Result<Vec<String>, AppError>)
    ensures
        switch_outcome(old(mgr).vars(), final(mgr).vars(), old(mgr).file_backed(), id_str@, enable, r),
{
    let id = match parse_boot_id(id_str) {
        Ok(id) => id,
        Err(e) => {
            return Err(e);
        },
    };
    let entry = match mgr.get_entry(id) {
        Ok(info) => info,
        Err(e) => {
            return Err(e);
        },
    };
    let label = labelled_exec(id, entry.description.as_str());
    if entry.active == enable {
        let lines = vec![
            concat(label.as_str(), if enable { " is already enabled." } else { " is already disabled." }),
        ];
        assert(texts(lines@) =~= seq![
            labelled(id, entry.description@) + if enable {
                " is already enabled."@
            } else {
                " is already disabled."@
            },
        ]);
        return Ok(lines);
    }
    match mgr.toggle_active(id) {
        Ok(_) => {},
        Err(e) => {
            return Err(e);
        },
    }
    let lines = vec![concat(if enable { "Enabled " } else { "Disabled " }, label.as_str())];
    assert(texts(lines@) =~= seq![
        (if enable {
            "Enabled "@
        } else {
            "Disabled "@
        }) + labelled(id, entry.description@),
    ]);
    Ok(lines)
}

/// Sets `LOAD_OPTION_ACTIVE` on the entry that `id_str` names, unless it is
/// already set, and returns the line to print.
pub fn run_enable(mgr: &mut BootManager, id_str: &str) -> (r: Result<Vec<String>, AppError>)
    ensures
        switch_outcome(old(mgr).vars(), final(mgr).vars(), old(mgr).file_backed(), id_str@, true, r),
{
    switch(mgr, id_str, true)
}

/// Clears `LOAD_OPTION_ACTIVE` on the entry that `id_str` names, unless it
/// is already clear, and returns the line to print.
pub fn run_disable(mgr: &mut BootManager, id_str: &str) -> (r: Result<Vec<String>, AppError>)
    ensures
        switch_outcome(old(mgr).vars(), final(mgr).vars(), old(mgr).file_backed(), id_str@, false, r),
{
    switch(mgr, id_str, false)
}

/// Enabling (`enable`) or disabling an entry that decodes leaves it in the
/// asked state: when it already is, nothing is written; otherwise what is
/// written is the entry with its `LOAD_OPTION_ACTIVE` bit (bit 0) equal to
/// `enable`, every other attribute bit and every other field kept.
pub proof fn law_switch_sets_the_flag(
    before: crate::boot::manager::Vars,
    after: crate::boot::manager::Vars,
    file: bool,
    id_str: Seq<char>,
    enable: bool,
    r: Result<Vec<String>, AppError>,
    id: u16,
    v: LoadOptionView,
)
    requires
        switch_outcome(before, after, file, id_str, enable, r),
        boot_id_of(id_str) == Some(id),
        entry_value(before, id) == Some(v),
        r is Ok,
    ensures
        (v.attributes % 2 == 1) == enable ==> after == before,
        after == before || exists|w: LoadOptionView|
            after == before.insert(boot_var_name(id), #[trigger] encoded_load_option(w)) && (
            w.attributes % 2 == 1) == enable && w.attributes / 2 == v.attributes / 2
                && w.description == v.description && w.file_path_list == v.file_path_list
                && w.optional_data == v.optional_data,
{
    law_toggle_flips_only_active(v);
    if after != before {
        let w = toggled(v);
        assert(after == before.insert(boot_var_name(id), encoded_load_option(w)));
    }
}

} // verus!
