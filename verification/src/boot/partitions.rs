//! GPT partitions: listing them from what `lsblk` (Linux) or `Get-Partition`
//! (Windows) report, and the commands that set or clear the ESP type.
use vstd::prelude::*;
use vstd::view::View as _;

use crate::boot::esp::{format_size, size_text};
use crate::error::AppError;
use crate::host::{efi_error, efi_error_text, CommandLine, CommandRun, Platform};
use crate::text::{
    chars_of, concat, decimal, format_decimal, parse_u32, parsed_u32, push_char, push_str,
    same_text, skip_pattern, string_from_suffix, trim_char, trim_char_exec, trim_space,
    trim_space_exec, trim_start_pattern,
};

verus! {

/// ESP partition type GUID.
pub const ESP_TYPE_GUID: &'static str = "c12a7328-f81f-11d2-ba4b-00a0c93ec93b";

/// Basic data partition type GUID (what clearing the ESP flag sets).
pub const BASIC_DATA_TYPE_GUID: &'static str = "ebd0a0a2-b9e5-4433-87c0-68b6b72699c7";

/// Information about a disk partition.
#[derive(Debug)]
pub struct PartitionInfo {
    pub disk: String,
    pub partition_number: u32,
    pub type_guid: Option<String>,
    pub is_esp: bool,
    pub label: Option<String>,
    pub size: Option<String>,
    pub mountpoint: Option<String>,
}

/// The value of a partition record.
pub struct PartitionInfoView {
    pub disk: Seq<char>,
    pub partition_number: u32,
    pub type_guid: Option<Seq<char>>,
    pub is_esp: bool,
    pub label: Option<Seq<char>>,
    pub size: Option<Seq<char>>,
    pub mountpoint: Option<Seq<char>>,
}

impl View for PartitionInfo {
    type V = PartitionInfoView;

    open spec fn view(&self) -> PartitionInfoView {
        PartitionInfoView {
            disk: self.disk@,
            partition_number: self.partition_number,
            type_guid: opt_chars(self.type_guid),
            is_esp: self.is_esp,
            label: opt_chars(self.label),
            size: opt_chars(self.size),
            mountpoint: opt_chars(self.mountpoint),
        }
    }
}

/// What `str::to_lowercase` returns for a text.
pub uninterp spec fn lowercased(s: Seq<char>) -> Seq<char>;

/// The text holds only ASCII characters.
pub open spec fn is_ascii_text(s: Seq<char>) -> bool {
    forall|i: int| 0 <= i < s.len() ==> (s[i] as u32) < 128
}

/// The character with `A`–`Z` mapped to `a`–`z`.
pub open spec fn ascii_lower(c: char) -> char {
    if 'A' <= c && c <= 'Z' {
        ((c as u32) + 32) as char
    } else {
        c
    }
}

/// The text with `A`–`Z` mapped to `a`–`z`.
pub open spec fn ascii_lowered(s: Seq<char>) -> Seq<char> {
    Seq::new(s.len(), |i: int| ascii_lower(s[i]))
}

/// Lower-casing ASCII text leaves no upper-case letter, and doing it again
/// changes nothing.
pub proof fn law_ascii_lowering_is_idempotent(s: Seq<char>)
    ensures
        forall|i: int|
            0 <= i < s.len() ==> !('A' <= #[trigger] ascii_lowered(s)[i] && ascii_lowered(s)[i]
                <= 'Z'),
        ascii_lowered(ascii_lowered(s)) == ascii_lowered(s),
{
    assert forall|i: int| 0 <= i < s.len() implies !('A' <= #[trigger] ascii_lowered(s)[i]
        && ascii_lowered(s)[i] <= 'Z') by {
        let c = s[i];
        if 'A' <= c && c <= 'Z' {
            assert((c as u32) + 32 >= 97);
        }
    }
    assert(ascii_lowered(ascii_lowered(s)) =~= ascii_lowered(s));
}

/// The text in lower case.
///
/// Trusted: calls `str::to_lowercase`; the result is named `lowercased`.
/// Claimed besides: for ASCII text, the result maps `A`–`Z` to `a`–`z` and
/// keeps every other character, as Unicode's lower-case mapping (which std
/// documents that it follows) does for ASCII.
#[verifier::external_body]
pub(crate) fn to_lowercase(s: &str) -> (r: String)
    ensures
        r@ == lowercased(s@),
        is_ascii_text(s@) ==> r@ == ascii_lowered(s@),
{
    s.to_lowercase()
}

/// The characters of an optional string.
pub open spec fn opt_chars(o: Option<String>) -> Option<Seq<char>> {
    match o {
        Some(s) => Some(s@),
        None => None,
    }
}

/// The text, or `None` when it is empty.
pub open spec fn non_empty(o: Option<Seq<char>>) -> Option<Seq<char>> {
    match o {
        Some(s) => if s.len() == 0 {
            None
        } else {
            Some(s)
        },
        None => None,
    }
}

/// The type GUID in lower case, and whether it is the ESP type.
pub open spec fn typed(t: Option<Seq<char>>) -> (Option<Seq<char>>, bool) {
    match t {
        Some(g) => (Some(lowercased(g)), lowercased(g) == ESP_TYPE_GUID@),
        None => (None, false),
    }
}

fn lowercase_opt(t: &Option<String>) -> (r: (Option<String>, bool))
    ensures
        (opt_chars(r.0), r.1) == typed(opt_chars(*t)),
{
    match t {
        Some(g) => {
            let l = to_lowercase(g.as_str());
            let esp = same_text(l.as_str(), ESP_TYPE_GUID);
            (Some(l), esp)
        },
        None => (None, false),
    }
}

fn non_empty_opt(o: &Option<String>) -> (r: Option<String>)
    ensures
        opt_chars(r) == non_empty(opt_chars(*o)),
{
    match o {
        Some(s) => if s.as_str().is_empty() {
            None
        } else {
            Some(s.clone())
        },
        None => None,
    }
}

fn clone_opt(o: &Option<String>) -> (r: Option<String>)
    ensures
        opt_chars(r) == opt_chars(*o),
{
    match o {
        Some(s) => Some(s.clone()),
        None => None,
    }
}

// --- Linux ---

/// A partition as `lsblk --json` lists it under its disk: each field is the
/// JSON string, or `None` where the key is missing or not a string.
#[derive(Debug)]
pub struct LsblkPartition {
    pub parttype: Option<String>,
    pub size: Option<String>,
    pub mountpoint: Option<String>,
    pub label: Option<String>,
}

/// A disk as `lsblk --json` lists it: its name, and its partitions where
/// `children` is an array.
#[derive(Debug)]
pub struct LsblkDisk {
    pub name: Option<String>,
    pub children: Option<Vec<LsblkPartition>>,
}

/// The value of an `lsblk` partition.
pub struct LsblkPartitionView {
    pub parttype: Option<Seq<char>>,
    pub size: Option<Seq<char>>,
    pub mountpoint: Option<Seq<char>>,
    pub label: Option<Seq<char>>,
}

impl View for LsblkPartition {
    type V = LsblkPartitionView;

    open spec fn view(&self) -> LsblkPartitionView {
        LsblkPartitionView {
            parttype: opt_chars(self.parttype),
            size: opt_chars(self.size),
            mountpoint: opt_chars(self.mountpoint),
            label: opt_chars(self.label),
        }
    }
}

/// The value of an `lsblk` disk.
pub struct LsblkDiskView {
    pub name: Option<Seq<char>>,
    pub children: Option<Seq<LsblkPartitionView>>,
}

impl View for LsblkDisk {
    type V = LsblkDiskView;

    open spec fn view(&self) -> LsblkDiskView {
        LsblkDiskView {
            name: opt_chars(self.name),
            children: match self.children {
                Some(cs) => Some(Seq::new(cs@.len(), |i: int| cs@[i]@)),
                None => None,
            },
        }
    }
}

/// The values of a sequence of `lsblk` disks.
pub open spec fn disk_views(ds: Seq<LsblkDisk>) -> Seq<LsblkDiskView> {
    Seq::new(ds.len(), |i: int| ds[i]@)
}

/// The record of the partition at index `idx` of the disk named `disk`.
pub open spec fn lsblk_partition(disk: Seq<char>, idx: int, p: LsblkPartitionView) -> PartitionInfoView {
    PartitionInfoView {
        disk,
        partition_number: ((idx + 1) % 0x1_0000_0000) as u32,
        type_guid: typed(p.parttype).0,
        is_esp: typed(p.parttype).1,
        label: non_empty(p.label),
        size: p.size,
        mountpoint: non_empty(p.mountpoint),
    }
}

/// The records of a disk's partitions, in order (none without children).
pub open spec fn lsblk_disk_partitions(d: LsblkDiskView) -> Seq<PartitionInfoView> {
    let name = match d.name {
        Some(n) => n,
        None => Seq::empty(),
    };
    match d.children {
        Some(cs) => Seq::new(cs.len(), |i: int| lsblk_partition(name, i, cs[i])),
        None => Seq::empty(),
    }
}

/// The records of all partitions of the disks, disk by disk.
pub open spec fn lsblk_partitions(disks: Seq<LsblkDiskView>) -> Seq<PartitionInfoView>
    decreases disks.len(),
{
    if disks.len() == 0 {
        Seq::empty()
    } else {
        lsblk_partitions(disks.drop_last()) + lsblk_disk_partitions(disks.last())
    }
}

/// The views of a vector of partition records.
pub open spec fn views(v: Seq<PartitionInfo>) -> Seq<PartitionInfoView> {
    Seq::new(v.len(), |i: int| v[i]@)
}

fn push_disk_partitions(out: &mut Vec<PartitionInfo>, d: &LsblkDisk)
    ensures
        views(final(out)@) == views(old(out)@) + lsblk_disk_partitions(d@),
{
    let name = match &d.name {
        Some(n) => n.clone(),
        None => String::new(),
    };
    match &d.children {
        None => {
            assert(views(out@) =~= views(out@) + Seq::<PartitionInfoView>::empty());
        },
        Some(cs) => {
            let ghost start = views(out@);
            let ghost want = lsblk_disk_partitions(d@);
            let mut i: usize = 0;
            while i < cs.len()
                invariant
                    i <= cs@.len(),
                    want == Seq::new(cs@.len(), |k: int| lsblk_partition(name@, k, cs@[k]@)),
                    views(out@) =~= start + want.take(i as int),
                decreases cs.len() - i,
            {
                let c = &cs[i];
                let (type_guid, is_esp) = lowercase_opt(&c.parttype);
                let low: u64 = (i as u64) % 0x1_0000_0000;
                let number: u32 = ((low + 1) % 0x1_0000_0000) as u32;
                proof {
                    vstd::arithmetic::div_mod::lemma_add_mod_noop(i as int, 1, 0x1_0000_0000);
                }
                let info = PartitionInfo {
                    disk: name.clone(),
                    partition_number: number,
                    type_guid,
                    is_esp,
                    label: non_empty_opt(&c.label),
                    size: clone_opt(&c.size),
                    mountpoint: non_empty_opt(&c.mountpoint),
                };
                assert(info@ == lsblk_partition(name@, i as int, cs@[i as int]@));
                let ghost prev = out@;
                let ghost iv = info@;
                out.push(info);
                assert(views(out@) =~= views(prev).push(iv));
                i = i + 1;
                assert(views(out@) =~= start + want.take(i as int));
            }
            assert(want.take(cs@.len() as int) =~= want);
        },
    }
}

/// The partitions of the disks that `lsblk --json` listed (`blockdevices`,
/// when it is an array), or the error for JSON that could not be parsed.
pub fn lsblk_partition_records(listing: Result<Option<Vec<LsblkDisk>>, String>) -> (r: Result<Vec<PartitionInfo>, AppError>)
    ensures
        match listing {
            Err(e) => r matches Err(AppError::Parse { message }) && message@
                == "Failed to parse lsblk JSON: "@ + e@,
            Ok(None) => r matches Ok(v) && v@.len() == 0,
            Ok(Some(disks)) => r matches Ok(v) && views(v@) == lsblk_partitions(disk_views(disks@)),
        },
{
    match listing {
        Err(e) => Err(AppError::Parse { message: concat("Failed to parse lsblk JSON: ", e.as_str()) }),
        Ok(None) => Ok(Vec::new()),
        Ok(Some(disks)) => {
            let mut out: Vec<PartitionInfo> = Vec::new();
            let mut i: usize = 0;
            let ghost dv = disk_views(disks@);
            assert(views(out@) =~= lsblk_partitions(dv.take(0)));
            while i < disks.len()
                invariant
                    i <= disks@.len(),
                    dv == disk_views(disks@),
                    views(out@) == lsblk_partitions(dv.take(i as int)),
                decreases disks.len() - i,
            {
                push_disk_partitions(&mut out, &disks[i]);
                assert(dv.take(i + 1).drop_last() =~= dv.take(i as int));
                assert(dv.take(i + 1).last() == disks@[i as int]@);
                i = i + 1;
            }
            assert(dv.take(disks@.len() as int) =~= dv);
            Ok(out)
        },
    }
}

// --- Windows ---

/// A partition as `Get-Partition | ConvertTo-Json` lists it: each field is
/// the JSON value where it has the expected kind (an unsigned integer or a
/// string), else `None`.
#[derive(Debug)]
pub struct WinPartition {
    pub disk_number: Option<u64>,
    pub partition_number: Option<u64>,
    pub gpt_type: Option<String>,
    pub size: Option<u64>,
    pub drive_letter: Option<String>,
    pub part_type: Option<String>,
}

/// The value of a partition that Windows listed.
pub struct WinPartitionView {
    pub disk_number: Option<u64>,
    pub partition_number: Option<u64>,
    pub gpt_type: Option<Seq<char>>,
    pub size: Option<u64>,
    pub drive_letter: Option<Seq<char>>,
    pub part_type: Option<Seq<char>>,
}

impl View for WinPartition {
    type V = WinPartitionView;

    open spec fn view(&self) -> WinPartitionView {
        WinPartitionView {
            disk_number: self.disk_number,
            partition_number: self.partition_number,
            gpt_type: opt_chars(self.gpt_type),
            size: self.size,
            drive_letter: opt_chars(self.drive_letter),
            part_type: opt_chars(self.part_type),
        }
    }
}

/// A GUID as Windows writes it, without its braces.
pub open spec fn unbraced(g: Seq<char>) -> Seq<char> {
    trim_char(trim_char(g, '{'), '}')
}

/// The drive of a drive letter: `None` for an empty or NUL letter, else the
/// letter followed by a colon.
pub open spec fn drive_of(letter: Option<Seq<char>>) -> Option<Seq<char>> {
    match letter {
        Some(s) => if s.len() == 0 || s == seq!['\0'] {
            None
        } else {
            Some(s + ":"@)
        },
        None => None,
    }
}

/// The record of a partition that Windows listed.
pub open spec fn win_partition(p: WinPartitionView) -> PartitionInfoView {
    let t = match p.gpt_type {
        Some(g) => Some(unbraced(g)),
        None => None,
    };
    PartitionInfoView {
        disk: "Disk "@ + decimal(
            match p.disk_number {
                Some(n) => n as nat,
                None => 0,
            },
        ),
        partition_number: match p.partition_number {
            Some(n) => (n % 0x1_0000_0000) as u32,
            None => 0,
        },
        type_guid: typed(t).0,
        is_esp: typed(t).1,
        label: p.part_type,
        size: match p.size {
            Some(b) => Some(size_text(b)),
            None => None,
        },
        mountpoint: drive_of(p.drive_letter),
    }
}

fn win_partition_info(p: &WinPartition) -> (r: PartitionInfo)
    ensures
        r@ == win_partition(p@),
{
    let n: u64 = match p.disk_number {
        Some(n) => n,
        None => 0,
    };
    let disk = concat("Disk ", format_decimal(n as u128).as_str());
    let partition_number: u32 = match p.partition_number {
        Some(n) => (n % 0x1_0000_0000) as u32,
        None => 0,
    };
    let t = match &p.gpt_type {
        Some(g) => {
            let a = trim_char_exec(g.as_str(), '{');
            Some(trim_char_exec(a.as_str(), '}'))
        },
        None => None,
    };
    let (type_guid, is_esp) = lowercase_opt(&t);
    let size = match p.size {
        Some(b) => Some(format_size(b)),
        None => None,
    };
    let mountpoint = match &p.drive_letter {
        Some(s) => {
            let cs = chars_of(s.as_str());
            if cs.len() == 0 || (cs.len() == 1 && cs[0] == '\0') {
                None
            } else {
                assert(!(cs@ =~= seq!['\0']));
                Some(concat(s.as_str(), ":"))
            }
        },
        None => None,
    };
    proof {
        if p.drive_letter is Some {
            let s = p.drive_letter->Some_0;
            if s@.len() == 1 && s@[0] == '\0' {
                assert(s@ =~= seq!['\0']);
            }
        }
    }
    PartitionInfo {
        disk,
        partition_number,
        type_guid,
        is_esp,
        label: clone_opt(&p.part_type),
        size,
        mountpoint,
    }
}

/// The records of the partitions that Windows listed, in order, or the
/// error for JSON that could not be parsed.
pub fn windows_partition_records(listing: Result<Vec<WinPartition>, String>) -> (r: Result<Vec<PartitionInfo>, AppError>)
    ensures
        match listing {
            Err(e) => r matches Err(AppError::Parse { message }) && message@
                == "Failed to parse partition JSON: "@ + e@,
            Ok(ps) => r matches Ok(v) && views(v@) == Seq::new(
                ps@.len(),
                |i: int| win_partition(ps@[i]@),
            ),
        },
{
    match listing {
        Err(e) => Err(
            AppError::Parse { message: concat("Failed to parse partition JSON: ", e.as_str()) },
        ),
        Ok(ps) => {
            let mut out: Vec<PartitionInfo> = Vec::new();
            let mut i: usize = 0;
            while i < ps.len()
                invariant
                    i <= ps@.len(),
                    views(out@) =~= Seq::new(i as nat, |k: int| win_partition(ps@[k]@)),
                decreases ps.len() - i,
            {
                let info = win_partition_info(&ps[i]);
                let ghost prev = out@;
                let ghost iv = info@;
                out.push(info);
                assert(views(out@) =~= views(prev).push(iv));
                i = i + 1;
                assert(views(out@) =~= Seq::new(i as nat, |k: int| win_partition(ps@[k]@)));
            }
            Ok(out)
        },
    }
}

// --- Reading the listings ---

/// What `lsblk --json` printed, as serde_json reads it: the disks under
/// `blockdevices` when that is an array, each with its `name` and, when
/// `children` is an array, its partitions' `parttype`, `size`,
/// `mountpoint` and `label` (each a string or `None`); or the parse error.
pub uninterp spec fn lsblk_json(text: Seq<char>) -> Result<Option<Seq<LsblkDiskView>>, Seq<char>>;

/// Reads `lsblk --json` output.
///
/// Trusted: parses the text with `serde_json::from_str` into a `Value`
/// (an error becomes its text) and reads the fields named above with
/// `as_array` and `as_str`; the result is named `lsblk_json`.
#[verifier::external_body]
fn parse_lsblk_json(text: &str) -> (r: Result<Option<Vec<LsblkDisk>>, String>)
    ensures
        match r {
            Ok(Some(ds)) => lsblk_json(text@) == Ok::<Option<Seq<LsblkDiskView>>, Seq<char>>(
                Some(disk_views(ds@)),
            ),
            Ok(None) => lsblk_json(text@) == Ok::<Option<Seq<LsblkDiskView>>, Seq<char>>(None),
            Err(e) => lsblk_json(text@) == Err::<Option<Seq<LsblkDiskView>>, Seq<char>>(e@),
        },
{
    let t = |v: &serde_json::Value, k: &str| v[k].as_str().map(String::from);
    let raw: serde_json::Value = serde_json::from_str(text).map_err(|e| e.to_string())?;
    Ok(raw["blockdevices"].as_array().map(|ds| ds.iter().map(|d| LsblkDisk {
        name: t(d, "name"),
        children: d["children"].as_array().map(|cs| cs.iter().map(|c| LsblkPartition {
            parttype: t(c, "parttype"), size: t(c, "size"), mountpoint: t(c, "mountpoint"), label: t(c, "label"),
        }).collect()),
    }).collect()))
}

/// The partitions in what `lsblk --json` printed, disk by disk, or the
/// error for JSON that could not be parsed.
pub fn parse_linux_partitions(json_str: &str) -> (r: Result<Vec<PartitionInfo>, AppError>)
    ensures
        match lsblk_json(json_str@) {
            Err(e) => r matches Err(AppError::Parse { message }) && message@
                == "Failed to parse lsblk JSON: "@ + e,
            Ok(None) => r matches Ok(v) && v@.len() == 0,
            Ok(Some(ds)) => r matches Ok(v) && views(v@) == lsblk_partitions(ds),
        },
{
    lsblk_partition_records(parse_lsblk_json(json_str))
}

/// What `Get-Partition | ConvertTo-Json` printed: an array of partitions,
/// a single partition object (when there is one partition), or another
/// JSON value.
#[derive(Debug)]
pub enum WinJsonItems {
    Array(Vec<WinPartition>),
    Object(WinPartition),
    Other,
}

/// The value of what `Get-Partition | ConvertTo-Json` printed.
pub enum WinJsonItemsView {
    Array(Seq<WinPartitionView>),
    Object(WinPartitionView),
    Other,
}

impl View for WinJsonItems {
    type V = WinJsonItemsView;

    open spec fn view(&self) -> WinJsonItemsView {
        match self {
            WinJsonItems::Array(ps) => WinJsonItemsView::Array(Seq::new(ps@.len(), |i: int| ps@[i]@)),
            WinJsonItems::Object(p) => WinJsonItemsView::Object(p@),
            WinJsonItems::Other => WinJsonItemsView::Other,
        }
    }
}

/// What `Get-Partition | ConvertTo-Json` printed, as serde_json reads it:
/// for each object, `DiskNumber`, `PartitionNumber` and `Size` where they
/// are unsigned integers and `GptType`, `DriveLetter` and `Type` where
/// they are strings; or the parse error.
pub uninterp spec fn windows_partition_json(text: Seq<char>) -> Result<WinJsonItemsView, Seq<char>>;

/// Reads `Get-Partition | ConvertTo-Json` output.
///
/// Trusted: parses the text with `serde_json::from_str` into a `Value`
/// (an error becomes its text), tells an array and an object from the
/// other values, and reads the fields named above with `as_u64` and
/// `as_str`; the result is named `windows_partition_json`.
#[verifier::external_body]
fn parse_windows_partition_json(text: &str) -> (r: Result<WinJsonItems, String>)
    ensures
        match r {
            Ok(items) => windows_partition_json(text@) == Ok::<WinJsonItemsView, Seq<char>>(items@),
            Err(e) => windows_partition_json(text@) == Err::<WinJsonItemsView, Seq<char>>(e@),
        },
{
    let t = |v: &serde_json::Value, k: &str| v[k].as_str().map(String::from);
    let item = |v: &serde_json::Value| WinPartition { disk_number: v["DiskNumber"].as_u64(), partition_number: v["PartitionNumber"].as_u64(),
        gpt_type: t(v, "GptType"), size: v["Size"].as_u64(), drive_letter: t(v, "DriveLetter"), part_type: t(v, "Type") };
    Ok(match serde_json::from_str::<serde_json::Value>(text).map_err(|e| e.to_string())? {
        serde_json::Value::Array(a) => WinJsonItems::Array(a.iter().map(item).collect()),
        o @ serde_json::Value::Object(_) => WinJsonItems::Object(item(&o)),
        _ => WinJsonItems::Other,
    })
}

/// The partitions in what `Get-Partition | ConvertTo-Json` printed: none
/// for blank output or a JSON value that is neither an array nor an
/// object, one for a single object; or the error for JSON that could not
/// be parsed.
pub fn parse_windows_partitions(json_str: &str) -> (r: Result<Vec<PartitionInfo>, AppError>)
    ensures
        trim_space(json_str@).len() == 0 ==> (r matches Ok(v) && v@.len() == 0),
        trim_space(json_str@).len() > 0 ==> match windows_partition_json(trim_space(json_str@)) {
            Err(e) => r matches Err(AppError::Parse { message }) && message@
                == "Failed to parse partition JSON: "@ + e,
            Ok(WinJsonItemsView::Array(ps)) => r matches Ok(v) && views(v@) == Seq::new(
                ps.len(),
                |i: int| win_partition(ps[i]),
            ),
            Ok(WinJsonItemsView::Object(p)) => r matches Ok(v) && views(v@) == seq![win_partition(p)],
            Ok(WinJsonItemsView::Other) => r matches Ok(v) && v@.len() == 0,
        },
{
    let trimmed = trim_space_exec(json_str);
    if trimmed.as_str().unicode_len() == 0 {
        return Ok(Vec::new());
    }
    match parse_windows_partition_json(trimmed.as_str()) {
        Err(e) => windows_partition_records(Err(e)),
        Ok(WinJsonItems::Array(ps)) => windows_partition_records(Ok(ps)),
        Ok(WinJsonItems::Object(p)) => {
            let ghost pv = p@;
            let r = windows_partition_records(Ok(vec![p]));
            proof {
                if r is Ok {
                    assert(Seq::new(1, |i: int| win_partition(seq![pv][i])) =~= seq![win_partition(pv)]);
                }
            }
            r
        },
        Ok(WinJsonItems::Other) => Ok(Vec::new()),
    }
}

/// What the caller learned by running the partition-listing command of the
/// platform: `Get-Partition` on Windows, `lsblk` on Linux.
#[derive(Debug)]
pub enum PartitionListing {
    /// What `Get-Partition | ConvertTo-Json` printed.
    Windows(CommandRun<String>),
    /// What `lsblk --json` printed.
    Linux(CommandRun<String>),
    /// Any other system.
    Unsupported,
}

/// List all GPT partitions on the system, from what the listing command
/// reported.
pub fn list_partitions(listing: PartitionListing) -> (r: Result<Vec<PartitionInfo>, AppError>)
    ensures
        match listing {
            PartitionListing::Unsupported => r matches Err(AppError::Efi { message }) && message@
                == "Partition listing is not supported on this platform"@,
            PartitionListing::Windows(CommandRun::NotStarted(e)) => r matches Err(e2)
                && efi_error_text(e2, "Failed to run PowerShell: "@, e@),
            PartitionListing::Windows(CommandRun::Failed(e)) => r matches Err(e2)
                && efi_error_text(e2, "PowerShell Get-Partition failed: "@, e@),
            PartitionListing::Windows(CommandRun::Succeeded(out)) => {
                let t = trim_space(out@);
                &&& t.len() == 0 ==> (r matches Ok(v) && v@.len() == 0)
                &&& t.len() > 0 ==> match windows_partition_json(t) {
                    Err(e) => r matches Err(AppError::Parse { message }) && message@
                        == "Failed to parse partition JSON: "@ + e,
                    Ok(WinJsonItemsView::Array(ps)) => r matches Ok(v) && views(v@) == Seq::new(
                        ps.len(),
                        |i: int| win_partition(ps[i]),
                    ),
                    Ok(WinJsonItemsView::Object(p)) => r matches Ok(v) && views(v@) == seq![
                        win_partition(p),
                    ],
                    Ok(WinJsonItemsView::Other) => r matches Ok(v) && v@.len() == 0,
                }
            },
            PartitionListing::Linux(CommandRun::NotStarted(e)) => r matches Err(e2)
                && efi_error_text(e2, "Failed to run lsblk: "@, e@),
            PartitionListing::Linux(CommandRun::Failed(e)) => r matches Err(e2) && efi_error_text(
                e2,
                "lsblk failed: "@,
                e@,
            ),
            PartitionListing::Linux(CommandRun::Succeeded(out)) => match lsblk_json(out@) {
                Err(e) => r matches Err(AppError::Parse { message }) && message@
                    == "Failed to parse lsblk JSON: "@ + e,
                Ok(None) => r matches Ok(v) && v@.len() == 0,
                Ok(Some(ds)) => r matches Ok(v) && views(v@) == lsblk_partitions(ds),
            },
        },
{
    match listing {
        PartitionListing::Unsupported => Err(
            AppError::Efi {
                message: String::from_str("Partition listing is not supported on this platform"),
            },
        ),
        PartitionListing::Windows(CommandRun::NotStarted(e)) => Err(
            efi_error("Failed to run PowerShell: ", e.as_str()),
        ),
        PartitionListing::Windows(CommandRun::Failed(e)) => Err(
            efi_error("PowerShell Get-Partition failed: ", e.as_str()),
        ),
        PartitionListing::Windows(CommandRun::Succeeded(out)) => parse_windows_partitions(out.as_str()),
        PartitionListing::Linux(CommandRun::NotStarted(e)) => Err(
            efi_error("Failed to run lsblk: ", e.as_str()),
        ),
        PartitionListing::Linux(CommandRun::Failed(e)) => Err(
            efi_error("lsblk failed: ", e.as_str()),
        ),
        PartitionListing::Linux(CommandRun::Succeeded(out)) => parse_linux_partitions(out.as_str()),
    }
}

// --- Setting the partition type ---

/// The number of a Windows disk identifier such as `"Disk 0"`: leading
/// `"Disk "` and then `"disk "` removed, the rest read as `u32`.
pub open spec fn disk_number_of(disk: Seq<char>) -> Option<u32> {
    parsed_u32(trim_start_pattern(trim_start_pattern(disk, "Disk "@), "disk "@))
}

/// The `Set-Partition` command that gives a partition a type GUID.
pub open spec fn set_partition_text(disk: u32, partition: u32, guid: Seq<char>) -> Seq<char> {
    "Set-Partition -DiskNumber "@ + decimal(disk as nat) + " -PartitionNumber "@ + decimal(
        partition as nat,
    ) + " -GptType '{"@ + guid + "}'"@
}

/// The command that gives a partition a type: `Set-Partition` through
/// PowerShell on Windows (for a disk written `Disk N`), `sgdisk
/// --typecode` on Linux. `esp` chooses the ESP type, else basic data.
pub open spec fn partition_type_command(
    platform: Platform,
    disk: Seq<char>,
    partition: u32,
    esp: bool,
    r: Result<CommandLine, AppError>,
) -> bool {
    match platform {
        Platform::Windows => match disk_number_of(disk) {
            None => r matches Err(AppError::Parse { message }) && message@ == "Invalid disk identifier: "@
                + disk + ". Expected format: 'Disk N'"@,
            Some(n) => r matches Ok(c) && c.program@ == "powershell"@ && c.args@.len() == 3
                && c.args@[0]@ == "-NoProfile"@ && c.args@[1]@ == "-Command"@ && c.args@[2]@
                == set_partition_text(
                n,
                partition,
                if esp {
                    ESP_TYPE_GUID@
                } else {
                    BASIC_DATA_TYPE_GUID@
                },
            ),
        },
        Platform::Linux => r matches Ok(c) && c.program@ == "sgdisk"@ && c.args@.len() == 2
            && c.args@[0]@ == "--typecode="@ + decimal(partition as nat) + ":"@ + (if esp {
            "EF00"@
        } else {
            "0700"@
        }) && c.args@[1]@ == disk,
        Platform::Other => r matches Err(AppError::Efi { message }) && message@
            == "ESP flag management is not supported on this platform"@,
    }
}

fn partition_type_command_of(platform: Platform, disk: &str, partition: u32, esp: bool) -> (r: Result<CommandLine, AppError>)
    ensures
        partition_type_command(platform, disk@, partition, esp, r),
{
    match platform {
        Platform::Windows => {
            let cs = chars_of(disk);
            let p1 = chars_of("Disk ");
            let p2 = chars_of("disk ");
            let k1 = skip_pattern(&cs, 0, &p1);
            let k2 = skip_pattern(&cs, k1, &p2);
            assert(cs@.skip(0) =~= cs@);
            let rest = string_from_suffix(&cs, k2);
            match parse_u32(rest.as_str()) {
                None => {
                    let mut m = concat("Invalid disk identifier: ", disk);
                    push_str(&mut m, ". Expected format: 'Disk N'");
                    Err(AppError::Parse { message: m })
                },
                Some(n) => {
                    let mut cmd = String::from_str("Set-Partition -DiskNumber ");
                    push_str(&mut cmd, format_decimal(n as u128).as_str());
                    push_str(&mut cmd, " -PartitionNumber ");
                    push_str(&mut cmd, format_decimal(partition as u128).as_str());
                    push_str(&mut cmd, " -GptType '{");
                    push_str(&mut cmd, if esp { ESP_TYPE_GUID } else { BASIC_DATA_TYPE_GUID });
                    push_str(&mut cmd, "}'");
                    let args = vec![String::from_str("-NoProfile"), String::from_str("-Command"), cmd];
                    Ok(CommandLine { program: String::from_str("powershell"), args })
                },
            }
        },
        Platform::Linux => {
            let mut a = String::from_str("--typecode=");
            push_str(&mut a, format_decimal(partition as u128).as_str());
            push_char(&mut a, ':');
            assert(a@ =~= "--typecode="@ + decimal(partition as nat) + ":"@) by {
                reveal_strlit(":");
            }
            push_str(&mut a, if esp { "EF00" } else { "0700" });
            let args = vec![a, String::from_str(disk)];
            Ok(CommandLine { program: String::from_str("sgdisk"), args })
        },
        Platform::Other => Err(
            AppError::Efi {
                message: String::from_str("ESP flag management is not supported on this platform"),
            },
        ),
    }
}

/// The command that sets a partition's type GUID to ESP, for the caller to
/// run and report with `partition_type_result`.
pub fn set_esp_flag(platform: Platform, disk: &str, partition_number: u32) -> (r: Result<CommandLine, AppError>)
    ensures
        partition_type_command(platform, disk@, partition_number, true, r),
{
    partition_type_command_of(platform, disk, partition_number, true)
}

/// The command that clears the ESP flag (reverting to basic data), for the
/// caller to run and report with `partition_type_result`.
pub fn clear_esp_flag(platform: Platform, disk: &str, partition_number: u32) -> (r: Result<CommandLine, AppError>)
    ensures
        partition_type_command(platform, disk@, partition_number, false, r),
{
    partition_type_command_of(platform, disk, partition_number, false)
}

/// What running a partition type command means: success, or the error
/// naming the tool (PowerShell's `Set-Partition` on Windows, `sgdisk`
/// elsewhere).
pub fn partition_type_result(platform: Platform, run: CommandRun<()>) -> (r: Result<(), AppError>)
    ensures
        match run {
            CommandRun::Succeeded(_) => r is Ok,
            CommandRun::NotStarted(e) => r matches Err(e2) && if platform == Platform::Windows {
                efi_error_text(e2, "Failed to run PowerShell: "@, e@)
            } else {
                efi_error_text(e2, "Failed to run sgdisk: "@, e@)
            },
            CommandRun::Failed(e) => r matches Err(e2) && if platform == Platform::Windows {
                efi_error_text(e2, "Set-Partition failed: "@, e@)
            } else {
                efi_error_text(e2, "sgdisk failed: "@, e@)
            },
        },
{
    match run {
        CommandRun::Succeeded(_) => Ok(()),
        CommandRun::NotStarted(e) => Err(
            if platform == Platform::Windows {
                efi_error("Failed to run PowerShell: ", e.as_str())
            } else {
                efi_error("Failed to run sgdisk: ", e.as_str())
            },
        ),
        CommandRun::Failed(e) => Err(
            if platform == Platform::Windows {
                efi_error("Set-Partition failed: ", e.as_str())
            } else {
                efi_error("sgdisk failed: ", e.as_str())
            },
        ),
    }
}

} // verus!
