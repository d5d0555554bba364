//! `backup` and `restore`: what they print around the backup file.
use vstd::prelude::*;
use vstd::view::View as _;

use crate::boot::backup::{backup_problem, validate, BackupData, BackupEntry};
use crate::error::AppError;
use crate::text::{concat, decimal, format_decimal, push_str, texts};

verus! {

/// A list of IDs as `{:?}` prints it: decimal numbers between brackets,
/// separated by `", "`.
pub open spec fn debug_ids(ids: Seq<u16>) -> Seq<char> {
    "["@ + debug_ids_inner(ids) + "]"@
}

/// The numbers of `debug_ids`, without the brackets.
pub open spec fn debug_ids_inner(ids: Seq<u16>) -> Seq<char>
    decreases ids.len(),
{
    if ids.len() == 0 {
        Seq::empty()
    } else if ids.len() == 1 {
        decimal(ids[0] as nat)
    } else {
        debug_ids_inner(ids.drop_last()) + ", "@ + decimal(ids.last() as nat)
    }
}

/// A list of IDs as `{:?}` prints it.
pub fn format_debug_ids(ids: &Vec<u16>) -> (s: String)
    ensures
        s@ == debug_ids(ids@),
{
    let mut s = String::new();
    let mut i: usize = 0;
    while i < ids.len()
        invariant
            i <= ids@.len(),
            s@ == debug_ids_inner(ids@.take(i as int)),
        decreases ids.len() - i,
    {
        if i > 0 {
            push_str(&mut s, ", ");
        }
        push_str(&mut s, format_decimal(ids[i] as u128).as_str());
        proof {
            assert(ids@.take(i + 1).drop_last() =~= ids@.take(i as int));
            if i == 0 {
                assert(ids@.take(0) =~= Seq::<u16>::empty());
            }
        }
        i = i + 1;
    }
    assert(ids@.take(ids@.len() as int) =~= ids@);
    let mut r = String::from_str("[");
    push_str(&mut r, s.as_str());
    push_str(&mut r, "]");
    r
}

/// What `backup` prints after saving the backup to `file`.
pub open spec fn backup_text(file: Seq<char>, data: BackupData) -> Seq<Seq<char>> {
    seq![
        "Backup saved to: "@ + file,
        "  Entries: "@ + decimal(data.entries@.len()),
        "  Boot order: "@ + debug_ids(data.boot_order@),
    ]
}

/// The lines `backup` prints after saving the backup to `file`.
pub fn backup_lines(file: &str, data: &BackupData) -> (lines: Vec<String>)
    ensures
        texts(lines@) == backup_text(file@, *data),
{
    let lines = vec![
        concat("Backup saved to: ", file),
        concat("  Entries: ", format_decimal(data.entries.len() as u128).as_str()),
        concat("  Boot order: ", format_debug_ids(&data.boot_order).as_str()),
    ];
    assert(texts(lines@) =~= backup_text(file@, *data));
    lines
}

/// The line `restore` shows for a backup entry: its variable name and
/// decoded description.
pub open spec fn restore_entry_line(e: BackupEntry) -> Seq<char> {
    "  "@ + e.variable_name@ + " — "@ + match e.decoded {
        Some(d) => d.description@,
        None => "(unknown)"@,
    }
}

/// What `restore` shows of a backup before asking to restore it.
pub open spec fn restore_summary_text(file: Seq<char>, data: BackupData) -> Seq<Seq<char>> {
    seq![
        "Backup file: "@ + file,
        "  Version:    "@ + decimal(data.version as nat),
        "  Timestamp:  "@ + data.timestamp@,
        "  Entries:    "@ + decimal(data.entries@.len()),
        "  Boot order: "@ + debug_ids(data.boot_order@),
        Seq::empty(),
    ] + Seq::new(data.entries@.len(), |i: int| restore_entry_line(data.entries@[i])) + seq![
        Seq::empty(),
    ]
}

/// Validates a backup read from `file` and returns what `restore` shows of
/// it before asking to restore it; an invalid backup is refused.
pub fn restore_summary(file: &str, data: &BackupData) -> (r: Result<Vec<String>, AppError>)
    ensures
        match backup_problem(*data) {
            Some(m) => r matches Err(AppError::Backup { message }) && message@ == m,
            None => r matches Ok(lines) && texts(lines@) == restore_summary_text(file@, *data),
        },
{
    match validate(data) {
        Ok(()) => {},
        Err(e) => {
            return Err(e);
        },
    }
    let mut lines = vec![
        concat("Backup file: ", file),
        concat("  Version:    ", format_decimal(data.version as u128).as_str()),
        concat("  Timestamp:  ", data.timestamp.as_str()),
        concat("  Entries:    ", format_decimal(data.entries.len() as u128).as_str()),
        concat("  Boot order: ", format_debug_ids(&data.boot_order).as_str()),
        String::new(),
    ];
    let ghost head = texts(lines@);
    assert(head =~= seq![
        "Backup file: "@ + file@,
        "  Version:    "@ + decimal(data.version as nat),
        "  Timestamp:  "@ + data.timestamp@,
        "  Entries:    "@ + decimal(data.entries@.len()),
        "  Boot order: "@ + debug_ids(data.boot_order@),
        Seq::empty(),
    ]);
    let mut i: usize = 0;
    while i < data.entries.len()
        invariant
            i <= data.entries@.len(),
            texts(lines@) == head + Seq::new(
                i as nat,
                |k: int| restore_entry_line(data.entries@[k]),
            ),
        decreases data.entries.len() - i,
    {
        let e = &data.entries[i];
        let mut line = concat("  ", e.variable_name.as_str());
        push_str(&mut line, " — ");
        match &e.decoded {
            Some(d) => push_str(&mut line, d.description.as_str()),
            None => push_str(&mut line, "(unknown)"),
        }
        assert(line@ == restore_entry_line(*e));
        let ghost prev = texts(lines@);
        let ghost lv = line@;
        lines.push(line);
        assert(texts(lines@) =~= prev.push(lv));
        i = i + 1;
        assert(texts(lines@) =~= head + Seq::new(
            i as nat,
            |k: int| restore_entry_line(data.entries@[k]),
        ));
    }
    let ghost body = texts(lines@);
    lines.push(String::new());
    assert(texts(lines@) =~= body.push(Seq::empty()));
    assert(texts(lines@) =~= restore_summary_text(file@, *data));
    Ok(lines)
}

/// Where `restore` saves the current entries before restoring:
/// `file` followed by `.pre-restore.json`.
pub fn auto_backup_path(file: &str) -> (p: String)
    ensures
        p@ == file@ + ".pre-restore.json"@,
{
    concat(file, ".pre-restore.json")
}

} // verus!
