//! Application errors and boot entry ID parsing.
use vstd::prelude::*;

use crate::text::{
    trim_start_pattern, chars_of, concat, format_hex4, hex4, hex_digit_value, hex_digit_value_exec, push_str,
    string_from_chars,
};

verus! {

/// Application-level errors.
#[derive(Debug)]
pub enum AppError {
    /// An EFI variable operation failed.
    Efi { message: String },
    /// The process lacks the privileges to access EFI variables.
    Privilege { message: String },
    /// No `Boot####` variable exists for the ID.
    EntryNotFound { id: u16 },
    /// The text is not a valid boot entry ID.
    InvalidEntryId { input: String },
    /// A backup could not be made, read or applied.
    Backup { message: String },
    /// Data could not be parsed.
    Parse { message: String },
    /// An input/output error, with its message.
    Io { message: String },
    /// A JSON (de)serialization error, with its message.
    Json { message: String },
}

/// The text that the error displays.
pub open spec fn error_text(e: AppError) -> Seq<char> {
    match e {
        AppError::Efi { message } => "EFI variable error: "@ + message@,
        AppError::Privilege { message } => "Insufficient privileges: "@ + message@,
        AppError::EntryNotFound { id } => "Boot entry not found: Boot"@ + hex4(id),
        AppError::InvalidEntryId { input } => "Invalid boot entry ID: "@ + input@,
        AppError::Backup { message } => "Backup/restore error: "@ + message@,
        AppError::Parse { message } => "Parse error: "@ + message@,
        AppError::Io { message } => message@,
        AppError::Json { message } => message@,
    }
}

impl AppError {
    /// The human-readable message of this error.
    pub fn message(&self) -> (s: String)
        ensures
            s@ == error_text(*self),
    {
        match self {
            AppError::Efi { message } => concat("EFI variable error: ", message.as_str()),
            AppError::Privilege { message } => concat(
                "Insufficient privileges: ",
                message.as_str(),
            ),
            AppError::EntryNotFound { id } => {
                let mut s = String::from_str("Boot entry not found: Boot");
                let h = format_hex4(*id);
                push_str(&mut s, h.as_str());
                s
            },
            AppError::InvalidEntryId { input } => concat(
                "Invalid boot entry ID: ",
                input.as_str(),
            ),
            AppError::Backup { message } => concat("Backup/restore error: ", message.as_str()),
            AppError::Parse { message } => concat("Parse error: ", message.as_str()),
            AppError::Io { message } => message.clone(),
            AppError::Json { message } => message.clone(),
        }
    }
}

/// The value of a string of hexadecimal digits (zero for the empty string),
/// or `None` when some character is not a hexadecimal digit.
pub open spec fn hex_digits_value(s: Seq<char>) -> Option<nat>
    decreases s.len(),
{
    if s.len() == 0 {
        Some(0)
    } else {
        match (hex_digits_value(s.drop_last()), hex_digit_value(s.last())) {
            (Some(a), Some(d)) => Some(a * 16 + d),
            _ => None,
        }
    }
}

/// What `u16::from_str_radix(s, 16)` accepts and returns: an optional `+`
/// sign followed by at least one hexadecimal digit, with a value that fits
/// in 16 bits.
pub open spec fn radix16_u16(s: Seq<char>) -> Option<u16> {
    if s.len() == 0 {
        None
    } else {
        let digits = if s[0] == '+' {
            s.skip(1)
        } else {
            s
        };
        if digits.len() == 0 {
            None
        } else {
            match hex_digits_value(digits) {
                Some(v) => if v <= 0xFFFF {
                    Some(v as u16)
                } else {
                    None
                },
                None => None,
            }
        }
    }
}

/// The part of a boot ID text that is read as hexadecimal: the text with
/// leading `0x` and then leading `0X` removed.
pub open spec fn boot_id_digits(s: Seq<char>) -> Seq<char> {
    trim_start_pattern(trim_start_pattern(s, seq!['0', 'x']), seq!['0', 'X'])
}

/// The boot entry ID that a text denotes, if any.
pub open spec fn boot_id_of(s: Seq<char>) -> Option<u16> {
    radix16_u16(boot_id_digits(s))
}

proof fn lemma_hex_prefix(s: Seq<char>, k: int)
    requires
        0 <= k <= s.len(),
    ensures
        hex_digits_value(s.take(k)) is None ==> hex_digits_value(s) is None,
        match (hex_digits_value(s.take(k)), hex_digits_value(s)) {
            (Some(a), Some(b)) => a <= b,
            _ => true,
        },
    decreases s.len() - k,
{
    if k == s.len() {
        assert(s.take(k) =~= s);
    } else {
        lemma_hex_prefix(s.drop_last(), k);
        assert(s.drop_last().take(k) =~= s.take(k));
    }
}

proof fn lemma_hex_extend(s: Seq<char>, i: int)
    requires
        0 <= i < s.len(),
    ensures
        hex_digits_value(s.take(i + 1)) == (match (
            hex_digits_value(s.take(i)),
            hex_digit_value(s[i]),
        ) {
            (Some(a), Some(d)) => Some(a * 16 + d),
            _ => None,
        }),
{
    assert(s.take(i + 1).drop_last() =~= s.take(i));
}

/// Parses `s[start..]` as `u16::from_str_radix(.., 16)` does.
fn parse_radix16_from(s: &Vec<char>, start: usize) -> (r: Option<u16>)
    requires
        start <= s.len(),
    ensures
        r == radix16_u16(s@.skip(start as int)),
{
    let ghost t = s@.skip(start as int);
    if start == s.len() {
        return None;
    }
    let mut i = start;
    if s[start] == '+' {
        i = start + 1;
    }
    let ghost digits = s@.skip(i as int);
    assert(digits =~= (if t[0] == '+' {
        t.skip(1)
    } else {
        t
    }));
    if i == s.len() {
        return None;
    }
    let mut acc: u32 = 0;
    let mut j = i;
    assert(digits.take(0) =~= Seq::<char>::empty());
    while j < s.len()
        invariant
            i <= j <= s.len(),
            i < s.len(),
            digits == s@.skip(i as int),
            t == s@.skip(start as int),
            t.len() > 0,
            digits == (if t[0] == '+' {
                t.skip(1)
            } else {
                t
            }),
            hex_digits_value(digits.take(j - i)) == Some(acc as nat),
            acc <= 0xFFFF,
        decreases s.len() - j,
    {
        let d = hex_digit_value_exec(s[j]);
        proof {
            lemma_hex_extend(digits, j - i);
            assert(digits[j - i] == s@[j as int]);
        }
        match d {
            None => {
                proof {
                    lemma_hex_prefix(digits, j - i + 1);
                }
                return None;
            },
            Some(dv) => {
                let next = acc * 16 + (dv as u32);
                if next > 0xFFFF {
                    proof {
                        lemma_hex_prefix(digits, j - i + 1);
                    }
                    return None;
                }
                acc = next;
            },
        }
        j = j + 1;
    }
    assert(digits.take(j - i) =~= digits);
    Some(acc as u16)
}

/// Skips every leading occurrence of the two-character pattern `[a, b]`
/// in `s[start..]`, returning the index of the first character left.
fn skip_pair_prefix(s: &Vec<char>, start: usize, a: char, b: char) -> (k: usize)
    requires
        start <= s.len(),
    ensures
        start <= k <= s.len(),
        s@.skip(k as int) == trim_start_pattern(s@.skip(start as int), seq![a, b]),
{
    let mut k = start;
    while s.len() - k >= 2 && s[k] == a && s[k + 1] == b
        invariant
            start <= k <= s.len(),
            trim_start_pattern(s@.skip(k as int), seq![a, b]) == trim_start_pattern(
                s@.skip(start as int),
                seq![a, b],
            ),
        decreases s.len() - k,
    {
        proof {
            let t = s@.skip(k as int);
            assert(t.take(2) =~= seq![a, b]);
            assert(t.skip(2) =~= s@.skip(k + 2));
        }
        k = k + 2;
    }
    proof {
        let t = s@.skip(k as int);
        if t.len() >= 2 && t.take(2) == seq![a, b] {
            assert(t[0] == s@[k as int] && t[1] == s@[k + 1]);
            assert(t.take(2)[0] == a && t.take(2)[1] == b);
        }
    }
    k
}

/// Parses a hexadecimal boot entry ID such as `"0001"`, `"1"` or `"0x0A"`.
///
/// Leading `0x` and then leading `0X` are removed; the rest must be what
/// `u16::from_str_radix(.., 16)` accepts. Any other text is an
/// `InvalidEntryId` error that carries the input.
pub fn parse_boot_id(input: &str) -> (r: Result<u16, AppError>)
    ensures
        match boot_id_of(input@) {
            Some(v) => r == Ok::<u16, AppError>(v),
            None => r matches Err(AppError::InvalidEntryId { input: i }) && i@ == input@,
        },
{
    let cs = chars_of(input);
    let k1 = skip_pair_prefix(&cs, 0, '0', 'x');
    let k2 = skip_pair_prefix(&cs, k1, '0', 'X');
    assert(cs@.skip(0) =~= cs@);
    match parse_radix16_from(&cs, k2) {
        Some(v) => Ok(v),
        None => Err(AppError::InvalidEntryId { input: string_from_chars(cs.as_slice()) }),
    }
}

/// Parses a hexadecimal number as `u16::from_str_radix(s, 16)` does.
pub fn parse_hex_u16(s: &str) -> (r: Option<u16>)
    ensures
        r == radix16_u16(s@),
{
    let cs = chars_of(s);
    assert(cs@.skip(0) =~= cs@);
    parse_radix16_from(&cs, 0)
}

proof fn lemma_hex_digit_upper_value(v: nat)
    requires
        v < 16,
    ensures
        hex_digit_value(crate::text::hex_digit_upper(v)) == Some(v),
{
}

/// An ID written as four upper-case hexadecimal digits, as the tool prints
/// IDs and names `Boot####` variables, reads back as the same ID, both as a
/// boot ID argument and as `u16::from_str_radix(.., 16)` reads it.
pub proof fn law_boot_id_text_roundtrip(id: u16)
    ensures
        radix16_u16(hex4(id)) == Some(id),
        boot_id_of(hex4(id)) == Some(id),
{
    let s = hex4(id);
    let d0 = (id / 4096) as nat;
    let d1 = ((id / 256) % 16) as nat;
    let d2 = ((id / 16) % 16) as nat;
    let d3 = (id % 16) as nat;
    lemma_hex_digit_upper_value(d0);
    lemma_hex_digit_upper_value(d1);
    lemma_hex_digit_upper_value(d2);
    lemma_hex_digit_upper_value(d3);
    assert(s.drop_last().drop_last().drop_last().drop_last() =~= Seq::<char>::empty());
    assert(hex_digits_value(s.drop_last().drop_last().drop_last().drop_last()) == Some(0nat));
    assert(s.drop_last().drop_last().drop_last().last() == s[0]);
    assert(s.drop_last().drop_last().last() == s[1]);
    assert(s.drop_last().last() == s[2]);
    assert(hex_digits_value(s.drop_last().drop_last().drop_last()) == Some(d0));
    assert(hex_digits_value(s.drop_last().drop_last()) == Some(d0 * 16 + d1));
    assert(hex_digits_value(s.drop_last()) == Some((d0 * 16 + d1) * 16 + d2));
    assert(hex_digits_value(s) == Some(((d0 * 16 + d1) * 16 + d2) * 16 + d3));
    assert(((d0 * 16 + d1) * 16 + d2) * 16 + d3 == id as nat) by (nonlinear_arith)
        requires
            d0 == (id / 4096) as nat,
            d1 == ((id / 256) % 16) as nat,
            d2 == ((id / 16) % 16) as nat,
            d3 == (id % 16) as nat,
    ;
    assert(s[0] != '+');
    assert(!(s.take(2) == seq!['0', 'x'])) by {
        assert(s.take(2)[1] == s[1]);
    }
    assert(!(s.take(2) == seq!['0', 'X'])) by {
        assert(s.take(2)[1] == s[1]);
    }
    assert(trim_start_pattern(s, seq!['0', 'x']) == s);
    assert(trim_start_pattern(s, seq!['0', 'X']) == s);
}

/// A value in lower-case hexadecimal without leading zeros (what
/// `format!("{:x}", v)` prints).
pub open spec fn hex_lower_text(v: nat) -> Seq<char>
    decreases v,
{
    if v < 16 {
        seq![crate::text::hex_digit_lower(v)]
    } else {
        hex_lower_text(v / 16).push(crate::text::hex_digit_lower(v % 16))
    }
}

proof fn lemma_hex_lower_text_value(v: nat)
    ensures
        hex_digits_value(hex_lower_text(v)) == Some(v),
        hex_lower_text(v).len() >= 1,
        forall|i: int|
            0 <= i < hex_lower_text(v).len() ==> hex_digit_value(#[trigger] hex_lower_text(v)[i])
                is Some,
    decreases v,
{
    if v < 16 {
        let s = hex_lower_text(v);
        assert(s.drop_last() =~= Seq::<char>::empty());
        assert(s.last() == crate::text::hex_digit_lower(v));
        assert(hex_digit_value(crate::text::hex_digit_lower(v)) == Some(v));
        assert(hex_digits_value(s.drop_last()) == Some(0nat));
    } else {
        lemma_hex_lower_text_value(v / 16);
        let s = hex_lower_text(v);
        assert(s.drop_last() =~= hex_lower_text(v / 16));
        assert(s.last() == crate::text::hex_digit_lower(v % 16));
        assert(hex_digit_value(crate::text::hex_digit_lower(v % 16)) == Some(v % 16));
        assert(v / 16 * 16 + v % 16 == v);
        assert forall|i: int| 0 <= i < s.len() implies hex_digit_value(#[trigger] s[i]) is Some by {
            if i < s.len() - 1 {
                assert(s[i] == hex_lower_text(v / 16)[i]);
            }
        }
    }
}

/// A value in upper-case hexadecimal without leading zeros (what
/// `format!("{:X}", v)` prints).
pub open spec fn hex_upper_text(v: nat) -> Seq<char>
    decreases v,
{
    if v < 16 {
        seq![crate::text::hex_digit_upper(v)]
    } else {
        hex_upper_text(v / 16).push(crate::text::hex_digit_upper(v % 16))
    }
}

proof fn lemma_hex_upper_text_value(v: nat)
    ensures
        hex_digits_value(hex_upper_text(v)) == Some(v),
        hex_upper_text(v).len() >= 1,
        forall|i: int|
            0 <= i < hex_upper_text(v).len() ==> hex_digit_value(#[trigger] hex_upper_text(v)[i])
                is Some,
    decreases v,
{
    if v < 16 {
        let s = hex_upper_text(v);
        assert(s.drop_last() =~= Seq::<char>::empty());
        assert(s.last() == crate::text::hex_digit_upper(v));
        lemma_hex_digit_upper_value(v);
        assert(hex_digits_value(s.drop_last()) == Some(0nat));
    } else {
        lemma_hex_upper_text_value(v / 16);
        let s = hex_upper_text(v);
        assert(s.drop_last() =~= hex_upper_text(v / 16));
        assert(s.last() == crate::text::hex_digit_upper(v % 16));
        lemma_hex_digit_upper_value(v % 16);
        assert(v / 16 * 16 + v % 16 == v);
        assert forall|i: int| 0 <= i < s.len() implies hex_digit_value(#[trigger] s[i]) is Some by {
            if i < s.len() - 1 {
                assert(s[i] == hex_upper_text(v / 16)[i]);
            }
        }
    }
}

/// A text of hexadecimal digits is read by a boot ID argument as it stands:
/// it has no `0x` or `0X` prefix and no `+` sign.
proof fn lemma_plain_hex_boot_id(s: Seq<char>)
    requires
        s.len() >= 1,
        forall|i: int| 0 <= i < s.len() ==> hex_digit_value(#[trigger] s[i]) is Some,
    ensures
        trim_start_pattern(s, seq!['0', 'x']) == s,
        boot_id_digits(s) == s,
        radix16_u16(s) == (match hex_digits_value(s) {
            Some(v) => if v <= 0xFFFF {
                Some(v as u16)
            } else {
                None
            },
            None => None,
        }),
{
    assert(hex_digit_value(s[0]) is Some);
    if s.len() >= 2 {
        assert(hex_digit_value(s[1]) is Some);
        assert(!(s.take(2) == seq!['0', 'x'])) by {
            assert(s.take(2)[1] == s[1]);
        }
        assert(!(s.take(2) == seq!['0', 'X'])) by {
            assert(s.take(2)[1] == s[1]);
        }
    }
    assert(trim_start_pattern(s, seq!['0', 'x']) == s);
    assert(trim_start_pattern(s, seq!['0', 'X']) == s);
}

/// A boot ID argument may be written in hexadecimal without leading zeros
/// in lower or upper case (`1`, `a`, `FFFF`), with or without `0x` before
/// it, or as four digits after `0x` (`0x0001`): each reads back as the same
/// ID.
pub proof fn law_boot_id_forms(id: u16)
    ensures
        boot_id_of(hex_lower_text(id as nat)) == Some(id),
        boot_id_of(hex_upper_text(id as nat)) == Some(id),
        boot_id_of(seq!['0', 'x'] + hex_upper_text(id as nat)) == Some(id),
        boot_id_of(seq!['0', 'x'] + hex4(id)) == Some(id),
{
    lemma_hex_upper_text_value(id as nat);
    let u = hex_upper_text(id as nat);
    lemma_plain_hex_boot_id(u);
    let tu = seq!['0', 'x'] + u;
    assert(tu.take(2) =~= seq!['0', 'x']);
    assert(tu.skip(2) =~= u);
    assert(trim_start_pattern(tu, seq!['0', 'x']) == u);
    lemma_hex_lower_text_value(id as nat);
    lemma_plain_hex_boot_id(hex_lower_text(id as nat));
    law_boot_id_text_roundtrip(id);
    let h = hex4(id);
    let t = seq!['0', 'x'] + h;
    assert(t.take(2) =~= seq!['0', 'x']);
    assert(t.skip(2) =~= h);
    assert(h.len() == 4);
    assert(!(h.take(2) == seq!['0', 'x'])) by {
        assert(h.take(2)[1] == h[1]);
        assert(hex_digit_value(h[1]) is Some) by {
            assert(radix16_u16(h) is Some);
        }
    }
    assert(trim_start_pattern(h, seq!['0', 'x']) == h);
    assert(trim_start_pattern(t, seq!['0', 'x']) == h);
}

} // verus!
