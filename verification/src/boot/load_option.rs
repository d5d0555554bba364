//! The contents of a `Boot####` variable (an `EFI_LOAD_OPTION`): plain
//! values for what the boot entry logic reads and writes, the framing checks
//! that keep efivar's decoder and encoder from panicking, and the text forms
//! of partition GUIDs and hard drive device paths.
use vstd::prelude::*;

use efivar::boot::{BootEntry, BootEntryAttributes, EFIHardDrive, EFIHardDriveType, FilePath, FilePathList};

use crate::text::{decimal, format_decimal, hex_digit_lower, hex_digit_lower_exec, push_char, push_str};

verus! {

/// How the partition signature of a hard drive device path is to be read.
#[derive(Clone, Copy, PartialEq, Eq, Structural, Debug)]
pub enum DriveSignatureType {
    Mbr,
    Gpt,
    Unknown,
}

/// A hard drive media device path node.
#[derive(Clone, Copy, PartialEq, Eq, Structural, Debug)]
pub struct HardDrive {
    pub partition_number: u32,
    pub partition_start: u64,
    pub partition_size: u64,
    /// The partition signature (a GUID for GPT), as its 128-bit value.
    pub partition_sig: u128,
    pub format: u8,
    pub sig_type: DriveSignatureType,
}

/// The device path list of a load option: the partition and the file on it.
#[derive(Debug)]
pub struct DevicePathList {
    pub file_path: String,
    pub hard_drive: HardDrive,
}

/// A decoded `EFI_LOAD_OPTION`.
#[derive(Debug)]
pub struct LoadOption {
    /// The attribute bits (bit 0 is `LOAD_OPTION_ACTIVE`).
    pub attributes: u32,
    pub description: String,
    pub file_path_list: Option<DevicePathList>,
    pub optional_data: Vec<u8>,
}

/// The value of a load option.
pub struct LoadOptionView {
    pub attributes: u32,
    pub description: Seq<char>,
    /// The file path and the hard drive node, when the option has both.
    pub file_path_list: Option<(Seq<char>, HardDrive)>,
    pub optional_data: Seq<u8>,
}

impl View for LoadOption {
    type V = LoadOptionView;

    open spec fn view(&self) -> LoadOptionView {
        LoadOptionView {
            attributes: self.attributes,
            description: self.description@,
            file_path_list: match self.file_path_list {
                Some(f) => Some((f.file_path@, f.hard_drive)),
                None => None,
            },
            optional_data: self.optional_data@,
        }
    }
}

/// Bit 0 of the attributes: `LOAD_OPTION_ACTIVE`.
pub open spec fn is_active(attributes: u32) -> bool {
    attributes % 2 == 1
}

/// The attributes with `LOAD_OPTION_ACTIVE` set to `active` and every
/// other bit kept.
pub open spec fn with_active(attributes: u32, active: bool) -> u32 {
    if active == is_active(attributes) {
        attributes
    } else if active {
        (attributes + 1) as u32
    } else {
        (attributes - 1) as u32
    }
}

/// What efivar's `BootEntry::parse` returns for the bytes of a `Boot####`
/// variable: the decoded option, or the text of its error.
pub uninterp spec fn decoded_load_option(bytes: Seq<u8>) -> Result<LoadOptionView, Seq<char>>;

/// What efivar's `BootEntry::to_bytes` returns for a load option.
pub uninterp spec fn encoded_load_option(option: LoadOptionView) -> Seq<u8>;

/// The little-endian 16-bit value at offset `i`.
pub open spec fn u16_at(b: Seq<u8>, i: int) -> nat {
    b[i] as nat + 256 * (b[i + 1] as nat)
}

/// The offset just past the NUL-terminated UTF-16 string that starts at
/// offset `i`, if its terminator lies inside `b`.
pub open spec fn utf16z_end(b: Seq<u8>, i: int) -> Option<int>
    decreases b.len() - i,
{
    if i < 0 || i + 2 > b.len() {
        None
    } else if u16_at(b, i) == 0 {
        Some(i + 2)
    } else {
        utf16z_end(b, i + 2)
    }
}

/// Every device path node of the list declares a length of at least its
/// four header bytes that fits in what is left of the list (a list that
/// ends in fewer than four bytes is a read error, not a framing fault).
pub open spec fn device_nodes_framed(s: Seq<u8>) -> bool
    decreases s.len(),
{
    if s.len() < 4 {
        true
    } else {
        let l = u16_at(s, 2);
        l >= 4 && l <= s.len() && device_nodes_framed(s.skip(l as int))
    }
}

/// The bytes of a load option are framed so that efivar's decoder reaches
/// no node whose declared length is shorter than its header or longer than
/// the list: on such a node `BootEntry::parse` panics.
pub open spec fn load_option_framed(b: Seq<u8>) -> bool {
    if b.len() < 6 {
        true
    } else {
        match utf16z_end(b, 6) {
            None => true,
            Some(e) => {
                let n = u16_at(b, 4);
                if e + n > b.len() {
                    true
                } else {
                    device_nodes_framed(b.subrange(e, e + n))
                }
            },
        }
    }
}

/// The number of UTF-16 code units that encode a string.
pub open spec fn utf16_units(s: Seq<char>) -> nat
    decreases s.len(),
{
    if s.len() == 0 {
        0
    } else {
        utf16_units(s.drop_last()) + if (s.last() as u32) >= 0x10000 {
            2nat
        } else {
            1nat
        }
    }
}

/// efivar's `BootEntry::to_bytes` can encode the option without panicking:
/// its drive signature type is known and its device path list (hard drive
/// node, file path node and end node) fits in 65535 bytes.
pub open spec fn load_option_encodable(v: LoadOptionView) -> bool {
    match v.file_path_list {
        None => true,
        Some((path, hd)) => hd.sig_type != DriveSignatureType::Unknown && 2 * utf16_units(path)
            + 52 <= 65535,
    }
}

/// efivar decodes the encoding of the option back to the option itself: it
/// can be encoded, its attribute bits are among those efivar knows
/// (`LOAD_OPTION_ACTIVE`, `FORCE_RECONNECT`, `HIDDEN`, `CATEGORY_APP`), and
/// neither its description nor its file path holds a NUL character (the
/// decoder ends a string at the first one).
pub open spec fn load_option_roundtrips(v: LoadOptionView) -> bool {
    &&& load_option_encodable(v)
    &&& v.attributes & 0xFFFF_FEF4u32 == 0
    &&& !v.description.contains('\0')
    &&& match v.file_path_list {
        Some((path, _)) => !path.contains('\0'),
        None => true,
    }
}

/// The bytes are framed and efivar's decoder reads them as `v`.
pub open spec fn reads_back_as(bytes: Seq<u8>, v: LoadOptionView) -> bool {
    load_option_framed(bytes) && decoded_load_option(bytes) == Ok::<LoadOptionView, Seq<char>>(v)
}

/// Decodes the bytes of a `Boot####` variable.
///
/// Trusted: calls efivar's `BootEntry::parse` and converts the entry field
/// for field (the partition GUID to its 128-bit value); an error becomes its
/// text. The contract claims only that the result is the parser's, named
/// `decoded_load_option`; the framing requirement excludes the inputs on
/// which the parser panics.
#[verifier::external_body]
fn efivar_decode(bytes: &[u8]) -> (r: Result<LoadOption, String>)
    requires
        load_option_framed(bytes@),
    ensures
        match r {
            Ok(o) => decoded_load_option(bytes@) == Ok::<LoadOptionView, Seq<char>>(o@),
            Err(e) => decoded_load_option(bytes@) == Err::<LoadOptionView, Seq<char>>(e@),
        },
{
    let e = BootEntry::parse(bytes.to_vec()).map_err(|e| e.to_string())?;
    let file_path_list = e.file_path_list.map(|f| {
        let h = f.hard_drive;
        let sig_type = match h.sig_type {
            EFIHardDriveType::Mbr => DriveSignatureType::Mbr,
            EFIHardDriveType::Gpt => DriveSignatureType::Gpt,
            EFIHardDriveType::Unknown => DriveSignatureType::Unknown,
        };
        let (partition_number, partition_start, partition_size) = (h.partition_number, h.partition_start, h.partition_size);
        let hard_drive = HardDrive { partition_number, partition_start, partition_size, partition_sig: h.partition_sig.as_u128(), format: h.format, sig_type };
        DevicePathList { file_path: f.file_path.path, hard_drive }
    });
    let (attributes, description, optional_data) = (e.attributes.bits(), e.description, e.optional_data);
    Ok(LoadOption { attributes, description, file_path_list, optional_data })
}

/// Encodes a load option as the bytes of a `Boot####` variable.
///
/// Trusted: builds efivar's `BootEntry` field for field from the option and
/// calls `BootEntry::to_bytes`. The contract claims that the result is the
/// encoder's, named `encoded_load_option`, and, for an option that
/// `load_option_roundtrips`, that the bytes are framed and that
/// `BootEntry::parse` gives the option back: `to_bytes` writes the
/// attributes, the list length, the description and the hard drive, file
/// path and end nodes with their lengths, and `parse` reads each back
/// (`from_bits` refuses unknown attribute bits; strings end at a NUL). The
/// requirement excludes the options on which the encoder panics.
#[verifier::external_body]
fn efivar_encode(option: &LoadOption) -> (r: Vec<u8>)
    requires
        load_option_encodable(option@),
    ensures
        r@ == encoded_load_option(option@),
        r@.len() >= 8,
        load_option_roundtrips(option@) ==> reads_back_as(r@, option@),
{
    let file_path_list = option.file_path_list.as_ref().map(|f| {
        let h = f.hard_drive;
        let sig_type = match h.sig_type {
            DriveSignatureType::Mbr => EFIHardDriveType::Mbr,
            DriveSignatureType::Gpt => EFIHardDriveType::Gpt,
            DriveSignatureType::Unknown => EFIHardDriveType::Unknown,
        };
        let (partition_number, partition_start, partition_size) = (h.partition_number, h.partition_start, h.partition_size);
        let hard_drive = EFIHardDrive { partition_number, partition_start, partition_size, partition_sig: uuid::Uuid::from_u128(h.partition_sig), format: h.format, sig_type };
        FilePathList { file_path: FilePath { path: f.file_path.clone() }, hard_drive }
    });
    let attributes = BootEntryAttributes::from_bits_retain(option.attributes);
    BootEntry { attributes, description: option.description.clone(), file_path_list, optional_data: option.optional_data.clone() }.to_bytes()
}

fn u16_at_exec(b: &[u8], i: usize) -> (v: u16)
    requires
        i + 2 <= b.len(),
    ensures
        v as nat == u16_at(b@, i as int),
{
    (b[i] as u16) + 256 * (b[i + 1] as u16)
}

/// Whether the bytes are framed as `load_option_framed` says.
pub fn is_load_option_framed(b: &[u8]) -> (r: bool)
    ensures
        r == load_option_framed(b@),
{
    let n = b.len();
    if n < 6 {
        return true;
    }
    let mut i: usize = 6;
    while i <= n - 2 && u16_at_exec(b, i) != 0
        invariant
            6 <= i <= n,
            n == b.len(),
            n >= 6,
            utf16z_end(b@, 6) == utf16z_end(b@, i as int),
        decreases n - i,
    {
        i = i + 2;
    }
    if i > n - 2 {
        assert(utf16z_end(b@, i as int) is None);
        return true;
    }
    assert(utf16z_end(b@, i as int) == Some(i + 2));
    let e = i + 2;
    let fpl = u16_at_exec(b, 4) as usize;
    if fpl > n - e {
        return true;
    }
    let end = e + fpl;
    let mut pos = e;
    while end - pos >= 4
        invariant
            e <= pos <= end <= n,
            n == b.len(),
            n >= 6,
            utf16z_end(b@, 6) == Some(e as int),
            u16_at(b@, 4) == end - e,
            device_nodes_framed(b@.subrange(e as int, end as int)) == device_nodes_framed(
                b@.subrange(pos as int, end as int),
            ),
        decreases end - pos,
    {
        let l = u16_at_exec(b, pos + 2) as usize;
        proof {
            let s = b@.subrange(pos as int, end as int);
            assert(u16_at(s, 2) == u16_at(b@, pos + 2));
        }
        if l < 4 || l > end - pos {
            assert(!device_nodes_framed(b@.subrange(pos as int, end as int)));
            return false;
        }
        proof {
            let s = b@.subrange(pos as int, end as int);
            assert(s.skip(l as int) =~= b@.subrange(pos + l, end as int));
        }
        pos = pos + l;
    }
    assert(b@.subrange(pos as int, end as int).len() < 4);
    true
}

proof fn lemma_utf16_units_prefix(s: Seq<char>, k: int)
    requires
        0 <= k <= s.len(),
    ensures
        utf16_units(s.take(k)) <= utf16_units(s),
    decreases s.len() - k,
{
    if k < s.len() {
        lemma_utf16_units_prefix(s.drop_last(), k);
        assert(s.drop_last().take(k) =~= s.take(k));
    } else {
        assert(s.take(k) =~= s);
    }
}

/// Whether the string is encoded in at most `limit` UTF-16 code units.
pub fn utf16_len_at_most(s: &str, limit: usize) -> (r: bool)
    ensures
        r == (utf16_units(s@) <= limit),
{
    let len = s.unicode_len();
    let mut n: usize = 0;
    let mut i: usize = 0;
    while i < len
        invariant
            len == s@.len(),
            i <= len,
            n == utf16_units(s@.take(i as int)),
            n <= limit,
        decreases len - i,
    {
        let c = s.get_char(i);
        proof {
            assert(s@.take(i + 1).drop_last() =~= s@.take(i as int));
        }
        let w: usize = if (c as u32) >= 0x10000 {
            2
        } else {
            1
        };
        if w > limit - n {
            proof {
                lemma_utf16_units_prefix(s@, i + 1);
            }
            return false;
        }
        n = n + w;
        i = i + 1;
    }
    assert(s@.take(len as int) =~= s@);
    true
}

/// Whether efivar's encoder accepts the option (`load_option_encodable`).
pub fn is_load_option_encodable(option: &LoadOption) -> (r: bool)
    ensures
        r == load_option_encodable(option@),
{
    match &option.file_path_list {
        None => true,
        Some(f) => {
            f.hard_drive.sig_type != DriveSignatureType::Unknown && utf16_len_at_most(
                f.file_path.as_str(),
                32741,
            )
        },
    }
}

/// Decodes the bytes of a `Boot####` variable, or says why it cannot.
///
/// Bytes that are not framed (`load_option_framed`) are refused with
/// `Err(None)` before efivar's decoder, which would panic on them, is
/// reached; otherwise the decoder's result is returned, an error as
/// `Err(Some(text))`.
pub fn decode_load_option(bytes: &[u8]) -> (r: Result<LoadOption, Option<String>>)
    ensures
        !load_option_framed(bytes@) ==> r == Err::<LoadOption, Option<String>>(None),
        load_option_framed(bytes@) ==> match r {
            Ok(o) => decoded_load_option(bytes@) == Ok::<LoadOptionView, Seq<char>>(o@),
            Err(None) => false,
            Err(Some(e)) => decoded_load_option(bytes@) == Err::<LoadOptionView, Seq<char>>(e@),
        },
{
    if !is_load_option_framed(bytes) {
        return Err(None);
    }
    match efivar_decode(bytes) {
        Ok(o) => Ok(o),
        Err(e) => Err(Some(e)),
    }
}

/// Encodes a load option, or returns `None` when efivar's encoder would
/// panic on it (`load_option_encodable` fails).
pub fn encode_load_option(option: &LoadOption) -> (r: Option<Vec<u8>>)
    ensures
        match r {
            Some(b) => load_option_encodable(option@) && b@ == encoded_load_option(option@)
                && b@.len() >= 8,
            None => !load_option_encodable(option@),
        },
        load_option_roundtrips(option@) ==> (r matches Some(b) && reads_back_as(b@, option@)),
{
    if is_load_option_encodable(option) {
        Some(efivar_encode(option))
    } else {
        None
    }
}

/// What `uuid::Uuid::parse_str` returns for a text: the GUID's 128-bit
/// value, or the text of its error.
pub uninterp spec fn parsed_guid(text: Seq<char>) -> Result<u128, Seq<char>>;

/// Parses a GUID in any of the forms the uuid crate reads (simple,
/// hyphenated, braced, URN).
///
/// Trusted: calls `uuid::Uuid::parse_str` and converts the result to its
/// 128-bit value, an error to its text; the result is named `parsed_guid`.
#[verifier::external_body]
pub(crate) fn parse_guid(text: &str) -> (r: Result<u128, String>)
    ensures
        match r {
            Ok(v) => parsed_guid(text@) == Ok::<u128, Seq<char>>(v),
            Err(e) => parsed_guid(text@) == Err::<u128, Seq<char>>(e@),
        },
{
    uuid::Uuid::parse_str(text).map(|u| u.as_u128()).map_err(|e| e.to_string())
}

/// `n` lower-case hexadecimal digits of `v` (its low `4 * n` bits), most
/// significant first.
pub open spec fn hex_lower_digits(v: nat, n: nat) -> Seq<char>
    decreases n,
{
    if n == 0 {
        Seq::empty()
    } else {
        hex_lower_digits(v / 16, (n - 1) as nat).push(hex_digit_lower(v % 16))
    }
}

/// A GUID in its hyphenated lower-case form, as `uuid::Uuid` displays it:
/// 8-4-4-4-12 hexadecimal digits of the 128-bit value.
pub open spec fn guid_text(v: u128) -> Seq<char> {
    hex_lower_digits(v as nat / 0x1_0000_0000_0000_0000_0000_0000, 8) + seq!['-'] + hex_lower_digits(
        (v as nat / 0x1_0000_0000_0000_0000_0000) % 0x10000,
        4,
    ) + seq!['-'] + hex_lower_digits((v as nat / 0x1_0000_0000_0000_0000) % 0x10000, 4) + seq!['-']
        + hex_lower_digits((v as nat / 0x1_0000_0000_0000) % 0x10000, 4) + seq!['-']
        + hex_lower_digits(v as nat % 0x1_0000_0000_0000, 12)
}

/// Appends `n` lower-case hexadecimal digits of `v` to `s`.
fn push_hex_lower(s: &mut String, v: u128, n: u32)
    requires
        n <= 32,
    ensures
        final(s)@ == old(s)@ + hex_lower_digits(v as nat, n as nat),
    decreases n,
{
    if n == 0 {
        assert(hex_lower_digits(v as nat, 0) =~= Seq::<char>::empty());
        assert(s@ =~= s@ + Seq::<char>::empty());
        return ;
    }
    push_hex_lower(s, v / 16, n - 1);
    push_char(s, hex_digit_lower_exec((v % 16) as u8));
    assert(s@ =~= old(s)@ + hex_lower_digits(v as nat, n as nat));
}

/// A GUID in its hyphenated lower-case form.
pub fn format_guid(v: u128) -> (s: String)
    ensures
        s@ == guid_text(v),
{
    let mut s = String::new();
    push_hex_lower(&mut s, v / 0x1_0000_0000_0000_0000_0000_0000, 8);
    push_char(&mut s, '-');
    push_hex_lower(&mut s, (v / 0x1_0000_0000_0000_0000_0000) % 0x10000, 4);
    push_char(&mut s, '-');
    push_hex_lower(&mut s, (v / 0x1_0000_0000_0000_0000) % 0x10000, 4);
    push_char(&mut s, '-');
    push_hex_lower(&mut s, (v / 0x1_0000_0000_0000) % 0x10000, 4);
    push_char(&mut s, '-');
    push_hex_lower(&mut s, v % 0x1_0000_0000_0000, 12);
    assert(s@ =~= guid_text(v));
    s
}

/// The name of a drive signature type as efivar displays it.
pub open spec fn signature_type_text(t: DriveSignatureType) -> Seq<char> {
    match t {
        DriveSignatureType::Mbr => "MBR"@,
        DriveSignatureType::Gpt => "GPT"@,
        DriveSignatureType::Unknown => "Unknown"@,
    }
}

/// A hard drive node as efivar displays it: `HD(number,type,guid)`.
pub open spec fn hard_drive_text(hd: HardDrive) -> Seq<char> {
    "HD("@ + decimal(hd.partition_number as nat) + ","@ + signature_type_text(hd.sig_type) + ","@
        + guid_text(hd.partition_sig) + ")"@
}

/// A hard drive node as efivar displays it.
pub fn format_hard_drive(hd: &HardDrive) -> (s: String)
    ensures
        s@ == hard_drive_text(*hd),
{
    let mut s = String::from_str("HD(");
    let n = format_decimal(hd.partition_number as u128);
    push_str(&mut s, n.as_str());
    push_str(&mut s, ",");
    match hd.sig_type {
        DriveSignatureType::Mbr => push_str(&mut s, "MBR"),
        DriveSignatureType::Gpt => push_str(&mut s, "GPT"),
        DriveSignatureType::Unknown => push_str(&mut s, "Unknown"),
    }
    push_str(&mut s, ",");
    let g = format_guid(hd.partition_sig);
    push_str(&mut s, g.as_str());
    push_str(&mut s, ")");
    assert(s@ =~= hard_drive_text(*hd));
    s
}

/// The load option that creating an entry from a description, a loader
/// path and a partition GUID makes: active, on partition 1 of a GPT disk.
pub open spec fn new_entry_view(description: Seq<char>, loader: Seq<char>, sig: u128) -> LoadOptionView {
    LoadOptionView {
        attributes: 1,
        description,
        file_path_list: Some(
            (
                loader,
                HardDrive {
                    partition_number: 1,
                    partition_start: 0,
                    partition_size: 0,
                    partition_sig: sig,
                    format: 2,
                    sig_type: DriveSignatureType::Gpt,
                },
            ),
        ),
        optional_data: Seq::empty(),
    }
}

/// The load option of a new active entry on partition 1 of a GPT disk.
pub fn new_entry_option_of(description: &str, loader: &str, sig: u128) -> (o: LoadOption)
    ensures
        o@ == new_entry_view(description@, loader@, sig),
{
    LoadOption {
        attributes: 1,
        description: String::from_str(description),
        file_path_list: Some(
            DevicePathList {
                file_path: String::from_str(loader),
                hard_drive: HardDrive {
                    partition_number: 1,
                    partition_start: 0,
                    partition_size: 0,
                    partition_sig: sig,
                    format: 0x02,
                    sig_type: DriveSignatureType::Gpt,
                },
            },
        ),
        optional_data: Vec::new(),
    }
}

/// A new entry is created enabled: its `LOAD_OPTION_ACTIVE` bit (bit 0 of
/// the attributes) is set and no other attribute bit is; it carries the
/// given description, and its file path is the given loader on partition 1
/// of the disk with the given partition GUID.
pub proof fn law_new_entry_is_active(description: Seq<char>, loader: Seq<char>, sig: u128)
    ensures
        new_entry_view(description, loader, sig).attributes % 2 == 1,
        new_entry_view(description, loader, sig).attributes / 2 == 0,
        new_entry_view(description, loader, sig).description == description,
        new_entry_view(description, loader, sig).file_path_list matches Some((p, hd)) && p == loader
            && hd.partition_sig == sig && hd.partition_number == 1,
{
}

} // verus!
