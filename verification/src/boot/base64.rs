//! Standard base64 (RFC 4648 alphabet, with padding), as backups store raw
//! variable values.
use vstd::prelude::*;

use base64::{engine::general_purpose::STANDARD, Engine};

verus! {

/// The base64 symbol for a 6-bit value.
pub open spec fn b64_symbol(v: nat) -> char {
    if v < 26 {
        (('A' as nat) + v) as char
    } else if v < 52 {
        (('a' as nat) + (v - 26)) as char
    } else if v < 62 {
        (('0' as nat) + (v - 52)) as char
    } else if v == 62 {
        '+'
    } else {
        '/'
    }
}

/// The standard padded base64 text of a byte sequence: each group of three
/// bytes becomes four symbols, and a final group of one or two bytes is
/// padded with `=`.
pub open spec fn base64_text(b: Seq<u8>) -> Seq<char>
    decreases b.len(),
{
    if b.len() == 0 {
        Seq::empty()
    } else if b.len() == 1 {
        seq![b64_symbol(b[0] as nat / 4), b64_symbol((b[0] as nat % 4) * 16), '=', '=']
    } else if b.len() == 2 {
        seq![
            b64_symbol(b[0] as nat / 4),
            b64_symbol((b[0] as nat % 4) * 16 + b[1] as nat / 16),
            b64_symbol((b[1] as nat % 16) * 4),
            '=',
        ]
    } else {
        seq![
            b64_symbol(b[0] as nat / 4),
            b64_symbol((b[0] as nat % 4) * 16 + b[1] as nat / 16),
            b64_symbol((b[1] as nat % 16) * 4 + b[2] as nat / 64),
            b64_symbol(b[2] as nat % 64),
        ] + base64_text(b.skip(3))
    }
}

/// The text of the error that decoding `text` as standard base64 gives.
pub uninterp spec fn base64_decode_error(text: Seq<char>) -> Seq<char>;

/// Encodes bytes as standard padded base64.
///
/// Trusted: calls `base64::engine::general_purpose::STANDARD.encode`,
/// which uses the RFC 4648 standard alphabet with padding; the contract
/// spells out that encoding.
#[verifier::external_body]
pub(crate) fn base64_encode(bytes: &[u8]) -> (r: String)
    ensures
        r@ == base64_text(bytes@),
{
    STANDARD.encode(bytes)
}

/// Decodes standard padded base64.
///
/// Trusted: calls `base64::engine::general_purpose::STANDARD.decode`; an
/// error becomes its text. Claimed: this engine accepts exactly the
/// canonical padded encodings (it rejects missing or extra padding and
/// non-zero trailing bits) and returns the bytes they encode; the text of a
/// rejection is named `base64_decode_error`.
#[verifier::external_body]
pub(crate) fn base64_decode(text: &str) -> (r: Result<Vec<u8>, String>)
    ensures
        r matches Ok(d) ==> text@ == base64_text(d@),
        forall|b: Seq<u8>| text@ == #[trigger] base64_text(b) ==> r is Ok && r->Ok_0@ == b,
        r matches Err(e) ==> e@ == base64_decode_error(text@),
{
    STANDARD.decode(text).map_err(|e| e.to_string())
}

/// `text` is the standard base64 encoding of some bytes.
pub open spec fn base64_valid(text: Seq<char>) -> bool {
    exists|b: Seq<u8>| text == #[trigger] base64_text(b)
}

/// The bytes that a valid base64 text encodes.
pub open spec fn base64_bytes(text: Seq<char>) -> Seq<u8> {
    choose|b: Seq<u8>| text == #[trigger] base64_text(b)
}

proof fn lemma_symbol_injective(x: nat, y: nat)
    requires
        x < 64,
        y < 64,
        b64_symbol(x) == b64_symbol(y),
    ensures
        x == y,
{
}

proof fn lemma_symbol_not_pad(x: nat)
    requires
        x < 64,
    ensures
        b64_symbol(x) != '=',
{
}

proof fn lemma_base64_len(b: Seq<u8>)
    ensures
        base64_text(b).len() == 4 * ((b.len() + 2) / 3),
        b.len() > 0 ==> base64_text(b).len() >= 4,
        b.len() >= 3 ==> base64_text(b)[3] != '=',
        b.len() == 1 ==> base64_text(b)[2] == '=' && base64_text(b)[3] == '=',
        b.len() == 2 ==> base64_text(b)[2] != '=' && base64_text(b)[3] == '=',
    decreases b.len(),
{
    if b.len() >= 3 {
        lemma_base64_len(b.skip(3));
        lemma_symbol_not_pad(b[2] as nat % 64);
    } else if b.len() == 2 {
        lemma_symbol_not_pad((b[1] as nat % 16) * 4);
    }
}

proof fn lemma_group_recover(a0: u8, a1: u8, a2: u8, c0: u8, c1: u8, c2: u8)
    requires
        a0 / 4 == c0 / 4,
        (a0 % 4) * 16 + a1 / 16 == (c0 % 4) * 16 + c1 / 16,
        (a1 % 16) * 4 + a2 / 64 == (c1 % 16) * 4 + c2 / 64,
        a2 % 64 == c2 % 64,
    ensures
        a0 == c0 && a1 == c1 && a2 == c2,
{
    assert(a0 == c0 && a1 == c1 && a2 == c2) by (bit_vector)
        requires
            a0 / 4 == c0 / 4,
            (a0 % 4) * 16 + a1 / 16 == (c0 % 4) * 16 + c1 / 16,
            (a1 % 16) * 4 + a2 / 64 == (c1 % 16) * 4 + c2 / 64,
            a2 % 64 == c2 % 64,
    ;
}

/// Distinct byte sequences have distinct base64 texts, so a valid text
/// decodes to one sequence only.
pub proof fn law_base64_injective(a: Seq<u8>, b: Seq<u8>)
    requires
        base64_text(a) == base64_text(b),
    ensures
        a == b,
    decreases a.len(),
{
    lemma_base64_len(a);
    lemma_base64_len(b);
    let t = base64_text(a);
    if a.len() == 0 || b.len() == 0 {
        assert(a.len() == 0 && b.len() == 0);
        assert(a =~= b);
    } else if a.len() >= 3 {
        assert(b.len() >= 3);
        let g = seq![
            b64_symbol(a[0] as nat / 4),
            b64_symbol((a[0] as nat % 4) * 16 + a[1] as nat / 16),
            b64_symbol((a[1] as nat % 16) * 4 + a[2] as nat / 64),
            b64_symbol(a[2] as nat % 64),
        ];
        let h = seq![
            b64_symbol(b[0] as nat / 4),
            b64_symbol((b[0] as nat % 4) * 16 + b[1] as nat / 16),
            b64_symbol((b[1] as nat % 16) * 4 + b[2] as nat / 64),
            b64_symbol(b[2] as nat % 64),
        ];
        assert(t == g + base64_text(a.skip(3)));
        assert(t == h + base64_text(b.skip(3)));
        assert(t[0] == g[0] && t[0] == h[0]);
        assert(t[1] == g[1] && t[1] == h[1]);
        assert(t[2] == g[2] && t[2] == h[2]);
        assert(t[3] == g[3] && t[3] == h[3]);
        lemma_symbol_injective(a[0] as nat / 4, b[0] as nat / 4);
        lemma_symbol_injective(
            (a[0] as nat % 4) * 16 + a[1] as nat / 16,
            (b[0] as nat % 4) * 16 + b[1] as nat / 16,
        );
        lemma_symbol_injective(
            (a[1] as nat % 16) * 4 + a[2] as nat / 64,
            (b[1] as nat % 16) * 4 + b[2] as nat / 64,
        );
        lemma_symbol_injective(a[2] as nat % 64, b[2] as nat % 64);
        lemma_group_recover(a[0], a[1], a[2], b[0], b[1], b[2]);
        assert(base64_text(a.skip(3)) =~= t.skip(4));
        assert(base64_text(b.skip(3)) =~= t.skip(4));
        law_base64_injective(a.skip(3), b.skip(3));
        assert(a =~= seq![a[0], a[1], a[2]] + a.skip(3));
        assert(b =~= seq![b[0], b[1], b[2]] + b.skip(3));
    } else if a.len() == 2 {
        assert(b.len() == 2);
        lemma_symbol_injective(a[0] as nat / 4, b[0] as nat / 4);
        lemma_symbol_injective(
            (a[0] as nat % 4) * 16 + a[1] as nat / 16,
            (b[0] as nat % 4) * 16 + b[1] as nat / 16,
        );
        lemma_symbol_injective((a[1] as nat % 16) * 4, (b[1] as nat % 16) * 4);
        lemma_group_recover(a[0], a[1], 0, b[0], b[1], 0);
        assert(a =~= b);
    } else {
        assert(b.len() == 1);
        lemma_symbol_injective(a[0] as nat / 4, b[0] as nat / 4);
        lemma_symbol_injective((a[0] as nat % 4) * 16, (b[0] as nat % 4) * 16);
        lemma_group_recover(a[0], 0, 0, b[0], 0, 0);
        assert(a =~= b);
    }
}

/// Decoding the encoding of bytes gives the same bytes back.
pub proof fn law_base64_roundtrip(b: Seq<u8>)
    ensures
        base64_valid(base64_text(b)),
        base64_bytes(base64_text(b)) == b,
{
    assert(base64_text(b) == base64_text(b));
    let c = base64_bytes(base64_text(b));
    law_base64_injective(c, b);
}

} // verus!
