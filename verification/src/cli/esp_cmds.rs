//! `esp list`, `esp set` and `esp clear`: what they print.
use vstd::prelude::*;
use vstd::view::View as _;

use crate::boot::partitions::{PartitionInfo, BASIC_DATA_TYPE_GUID, ESP_TYPE_GUID};
use crate::cli::entry_cmds::or_text;
use crate::text::{concat, decimal, format_decimal, push_str, texts};

verus! {

/// The row `esp list` shows for a partition: disk, number, type GUID, ESP
/// mark, label, size, mount point.
pub open spec fn partition_row(p: PartitionInfo) -> Seq<Seq<char>> {
    seq![
        p.disk@,
        decimal(p.partition_number as nat),
        or_text(p.type_guid, "-"@),
        if p.is_esp {
            "✓"@
        } else {
            Seq::empty()
        },
        or_text(p.label, "-"@),
        or_text(p.size, "-"@),
        or_text(p.mountpoint, "-"@),
    ]
}

fn or_dash(o: &Option<String>) -> (s: String)
    ensures
        s@ == or_text(*o, "-"@),
{
    match o {
        Some(s) => s.clone(),
        None => String::from_str("-"),
    }
}

/// The rows of the `esp list` table, one per partition.
pub fn partition_rows(parts: &Vec<PartitionInfo>) -> (rows: Vec<Vec<String>>)
    ensures
        rows@.len() == parts@.len(),
        forall|i: int| 0 <= i < rows@.len() ==> texts(#[trigger] rows@[i]@) == partition_row(parts@[i]),
{
    let mut rows: Vec<Vec<String>> = Vec::new();
    let mut i: usize = 0;
    while i < parts.len()
        invariant
            i <= parts@.len(),
            rows@.len() == i,
            forall|k: int| 0 <= k < i ==> texts(#[trigger] rows@[k]@) == partition_row(parts@[k]),
        decreases parts.len() - i,
    {
        let p = &parts[i];
        let row = vec![
            p.disk.clone(),
            format_decimal(p.partition_number as u128),
            or_dash(&p.type_guid),
            if p.is_esp { String::from_str("✓") } else { String::new() },
            or_dash(&p.label),
            or_dash(&p.size),
            or_dash(&p.mountpoint),
        ];
        assert(texts(row@) =~= partition_row(*p));
        rows.push(row);
        i = i + 1;
    }
    rows
}

/// What `esp set` (`esp` true) or `esp clear` prints after changing the
/// type of partition `partition` of `disk`.
pub open spec fn flag_text(disk: Seq<char>, partition: u32, esp: bool) -> Seq<Seq<char>> {
    seq![
        (if esp {
            "Set ESP flag on "@
        } else {
            "Cleared ESP flag on "@
        }) + disk + " partition "@ + decimal(partition as nat),
        "Type GUID → "@ + if esp {
            ESP_TYPE_GUID@
        } else {
            BASIC_DATA_TYPE_GUID@
        },
    ]
}

/// The lines `esp set` (`esp` true) or `esp clear` prints after changing
/// the type of a partition.
pub fn flag_lines(disk: &str, partition: u32, esp: bool) -> (lines: Vec<String>)
    ensures
        texts(lines@) == flag_text(disk@, partition, esp),
{
    let mut first = String::from_str(if esp { "Set ESP flag on " } else { "Cleared ESP flag on " });
    push_str(&mut first, disk);
    push_str(&mut first, " partition ");
    push_str(&mut first, format_decimal(partition as u128).as_str());
    let lines = vec![
        first,
        concat("Type GUID → ", if esp { ESP_TYPE_GUID } else { BASIC_DATA_TYPE_GUID }),
    ];
    assert(texts(lines@) =~= flag_text(disk@, partition, esp));
    lines
}

/// In the `esp list` table each row has the seven columns, and its ESP
/// column (the fourth) is a check mark for a partition of the ESP type and
/// empty for any other.
pub proof fn law_esp_column_marks_the_esp(p: PartitionInfo)
    ensures
        partition_row(p).len() == 7,
        p.is_esp ==> partition_row(p)[3] == "✓"@,
        !p.is_esp ==> partition_row(p)[3].len() == 0,
        partition_row(p)[3].len() > 0 <==> p.is_esp,
{
    reveal_strlit("✓");
}

} // verus!
