//! Small verified text helpers: character access, hexadecimal and decimal
//! rendering, and string building.
use vstd::prelude::*;

verus! {

/// Appends one character to a string.
///
/// Trusted: calls `String::push`, which appends the character at the end
/// of the string and leaves the rest unchanged.
#[verifier::external_body]
pub(crate) fn push_char(s: &mut String, c: char)
    ensures
        final(s)@ == old(s)@.push(c),
{
    s.push(c);
}

/// Copies the characters of a string slice into a vector.
pub fn chars_of(s: &str) -> (v: Vec<char>)
    ensures
        v@ == s@,
{
    let n = s.unicode_len();
    let mut v: Vec<char> = Vec::new();
    let mut i: usize = 0;
    while i < n
        invariant
            n == s@.len(),
            i <= n,
            v@ == s@.take(i as int),
        decreases n - i,
    {
        let c = s.get_char(i);
        v.push(c);
        i = i + 1;
        assert(v@ =~= s@.take(i as int));
    }
    assert(v@ =~= s@);
    v
}

/// Builds a string from a sequence of characters.
pub fn string_from_chars(cs: &[char]) -> (s: String)
    ensures
        s@ == cs@,
{
    let mut s = String::new();
    let mut i: usize = 0;
    while i < cs.len()
        invariant
            i <= cs.len(),
            s@ == cs@.take(i as int),
        decreases cs.len() - i,
    {
        push_char(&mut s, cs[i]);
        i = i + 1;
        assert(s@ =~= cs@.take(i as int));
    }
    assert(s@ =~= cs@);
    s
}

/// Removes the last character of a string and returns it; `None`, with the
/// string unchanged, when it is empty.
pub fn pop_char(s: &mut String) -> (r: Option<char>)
    ensures
        old(s)@.len() == 0 ==> r is None && final(s)@ == old(s)@,
        old(s)@.len() > 0 ==> r == Some(old(s)@.last()) && final(s)@ == old(s)@.drop_last(),
{
    let cs = chars_of(s.as_str());
    if cs.len() == 0 {
        return None;
    }
    let last = cs[cs.len() - 1];
    let mut t = String::new();
    let mut i: usize = 0;
    while i + 1 < cs.len()
        invariant
            cs@ == old(s)@,
            cs@.len() > 0,
            i + 1 <= cs@.len(),
            t@ == cs@.take(i as int),
        decreases cs.len() - i,
    {
        push_char(&mut t, cs[i]);
        i = i + 1;
        assert(t@ =~= cs@.take(i as int));
    }
    assert(t@ =~= old(s)@.drop_last());
    *s = t;
    Some(last)
}

/// The characters of `cs` from index `k` on, as a string.
pub fn string_from_suffix(cs: &Vec<char>, k: usize) -> (s: String)
    requires
        k <= cs.len(),
    ensures
        s@ == cs@.skip(k as int),
{
    let mut s = String::new();
    let mut i = k;
    while i < cs.len()
        invariant
            k <= i <= cs.len(),
            s@ == cs@.subrange(k as int, i as int),
        decreases cs.len() - i,
    {
        push_char(&mut s, cs[i]);
        i = i + 1;
        assert(s@ =~= cs@.subrange(k as int, i as int));
    }
    assert(s@ =~= cs@.skip(k as int));
    s
}

/// Appends a string slice to a string.
pub fn push_str(s: &mut String, t: &str)
    ensures
        final(s)@ == old(s)@ + t@,
{
    s.append(t);
}

/// The concatenation of two strings as a new string.
pub fn concat(a: &str, b: &str) -> (s: String)
    ensures
        s@ == a@ + b@,
{
    let mut s = String::from_str(a);
    s.append(b);
    s
}

/// Upper-case hexadecimal digit for a value below 16.
pub open spec fn hex_digit_upper(v: nat) -> char {
    if v < 10 {
        (('0' as nat) + v) as char
    } else {
        (('A' as nat) + (v - 10)) as char
    }
}

/// Lower-case hexadecimal digit for a value below 16.
pub open spec fn hex_digit_lower(v: nat) -> char {
    if v < 10 {
        (('0' as nat) + v) as char
    } else {
        (('a' as nat) + (v - 10)) as char
    }
}

/// A 16-bit value as exactly four upper-case hexadecimal digits
/// (what `format!("{:04X}", v)` prints).
pub open spec fn hex4(v: u16) -> Seq<char> {
    seq![
        hex_digit_upper((v / 4096) as nat),
        hex_digit_upper(((v / 256) % 16) as nat),
        hex_digit_upper(((v / 16) % 16) as nat),
        hex_digit_upper((v % 16) as nat),
    ]
}

/// A byte as exactly two lower-case hexadecimal digits
/// (what `format!("{:02x}", b)` prints).
pub open spec fn hex2_lower(b: u8) -> Seq<char> {
    seq![hex_digit_lower((b / 16) as nat), hex_digit_lower((b % 16) as nat)]
}

/// The value of a hexadecimal digit of either case, if the character is one.
pub open spec fn hex_digit_value(c: char) -> Option<nat> {
    if '0' <= c && c <= '9' {
        Some(((c as nat) - ('0' as nat)) as nat)
    } else if 'a' <= c && c <= 'f' {
        Some(((c as nat) - ('a' as nat) + 10) as nat)
    } else if 'A' <= c && c <= 'F' {
        Some(((c as nat) - ('A' as nat) + 10) as nat)
    } else {
        None
    }
}

/// Upper-case hexadecimal digit for a value below 16.
pub fn hex_digit_upper_exec(v: u8) -> (c: char)
    requires
        v < 16,
    ensures
        c == hex_digit_upper(v as nat),
{
    if v < 10 {
        ((48u8 + v) as char)
    } else {
        ((65u8 + (v - 10)) as char)
    }
}

/// Lower-case hexadecimal digit for a value below 16.
pub fn hex_digit_lower_exec(v: u8) -> (c: char)
    requires
        v < 16,
    ensures
        c == hex_digit_lower(v as nat),
{
    if v < 10 {
        ((48u8 + v) as char)
    } else {
        ((97u8 + (v - 10)) as char)
    }
}

/// The value of a hexadecimal digit of either case, if the character is one.
pub fn hex_digit_value_exec(c: char) -> (r: Option<u8>)
    ensures
        r matches Some(d) ==> hex_digit_value(c) == Some(d as nat) && d < 16,
        r is None ==> hex_digit_value(c) is None,
{
    if '0' <= c && c <= '9' {
        Some(((c as u32) - ('0' as u32)) as u8)
    } else if 'a' <= c && c <= 'f' {
        Some(((c as u32) - ('a' as u32) + 10) as u8)
    } else if 'A' <= c && c <= 'F' {
        Some(((c as u32) - ('A' as u32) + 10) as u8)
    } else {
        None
    }
}

/// Renders a 16-bit value as four upper-case hexadecimal digits.
pub fn format_hex4(v: u16) -> (s: String)
    ensures
        s@ == hex4(v),
{
    let mut s = String::new();
    push_char(&mut s, hex_digit_upper_exec((v / 4096) as u8));
    push_char(&mut s, hex_digit_upper_exec(((v / 256) % 16) as u8));
    push_char(&mut s, hex_digit_upper_exec(((v / 16) % 16) as u8));
    push_char(&mut s, hex_digit_upper_exec((v % 16) as u8));
    assert(s@ =~= hex4(v));
    s
}

/// Renders a byte as two lower-case hexadecimal digits.
pub fn format_hex2_lower(b: u8) -> (s: String)
    ensures
        s@ == hex2_lower(b),
{
    let mut s = String::new();
    push_char(&mut s, hex_digit_lower_exec(b / 16));
    push_char(&mut s, hex_digit_lower_exec(b % 16));
    assert(s@ =~= hex2_lower(b));
    s
}

/// Decimal digits of a natural number, most significant first, without
/// leading zeros (zero is "0").
pub open spec fn decimal(n: nat) -> Seq<char>
    decreases n,
{
    if n < 10 {
        seq![(('0' as nat) + n) as char]
    } else {
        decimal(n / 10).push((('0' as nat) + (n % 10)) as char)
    }
}

/// Renders a number in decimal, as `format!("{}", n)` does.
pub fn format_decimal(n: u128) -> (s: String)
    ensures
        s@ == decimal(n as nat),
    decreases n,
{
    if n < 10 {
        let mut s = String::new();
        push_char(&mut s, ((48u8 + (n as u8)) as char));
        assert(s@ =~= decimal(n as nat));
        s
    } else {
        let mut s = format_decimal(n / 10);
        push_char(&mut s, ((48u8 + ((n % 10) as u8)) as char));
        assert(s@ =~= decimal(n as nat));
        s
    }
}

/// Whether two strings are equal.
pub fn same_text(a: &str, b: &str) -> (r: bool)
    ensures
        r == (a@ == b@),
{
    let n = a.unicode_len();
    if n != b.unicode_len() {
        return false;
    }
    let mut i: usize = 0;
    while i < n
        invariant
            n == a@.len(),
            n == b@.len(),
            i <= n,
            forall|k: int| 0 <= k < i ==> a@[k] == b@[k],
        decreases n - i,
    {
        if a.get_char(i) != b.get_char(i) {
            return false;
        }
        i = i + 1;
    }
    assert(a@ =~= b@);
    true
}

/// `s` with every leading occurrence of the pattern `p` removed, as
/// `str::trim_start_matches` does with a string pattern.
pub open spec fn trim_start_pattern(s: Seq<char>, p: Seq<char>) -> Seq<char>
    decreases s.len(),
{
    if p.len() > 0 && s.len() >= p.len() && s.take(p.len() as int) == p {
        trim_start_pattern(s.skip(p.len() as int), p)
    } else {
        s
    }
}

/// Skips every leading occurrence of the pattern `p` in `s[start..]`,
/// returning the index of the first character left.
pub fn skip_pattern(s: &Vec<char>, start: usize, p: &Vec<char>) -> (k: usize)
    requires
        start <= s.len(),
    ensures
        start <= k <= s.len(),
        s@.skip(k as int) == trim_start_pattern(s@.skip(start as int), p@),
{
    if p.len() == 0 {
        return start;
    }
    let mut k = start;
    while s.len() - k >= p.len() && starts_with_at(s, k, p)
        invariant
            start <= k <= s.len(),
            p@.len() > 0,
            trim_start_pattern(s@.skip(k as int), p@) == trim_start_pattern(
                s@.skip(start as int),
                p@,
            ),
        decreases s.len() - k,
    {
        proof {
            let t = s@.skip(k as int);
            assert(t.take(p@.len() as int) =~= p@);
            assert(t.skip(p@.len() as int) =~= s@.skip(k + p@.len()));
        }
        k = k + p.len();
    }
    proof {
        let t = s@.skip(k as int);
        if t.len() >= p@.len() && t.take(p@.len() as int) == p@ {
            assert forall|i: int| 0 <= i < p@.len() implies s@[k + i] == p@[i] by {
                assert(t.take(p@.len() as int)[i] == t[i]);
            }
        }
    }
    k
}

/// Whether `p` occurs in `s` at index `k`.
fn starts_with_at(s: &Vec<char>, k: usize, p: &Vec<char>) -> (r: bool)
    requires
        k + p.len() <= s.len(),
    ensures
        r == (forall|i: int| 0 <= i < p@.len() ==> s@[k + i] == p@[i]),
        r == (s@.skip(k as int).take(p@.len() as int) == p@),
{
    let mut i: usize = 0;
    while i < p.len()
        invariant
            i <= p.len(),
            k + p.len() <= s.len(),
            forall|j: int| 0 <= j < i ==> s@[k + j] == p@[j],
        decreases p.len() - i,
    {
        if s[k + i] != p[i] {
            assert(s@.skip(k as int).take(p@.len() as int)[i as int] != p@[i as int]);
            return false;
        }
        i = i + 1;
    }
    assert(s@.skip(k as int).take(p@.len() as int) =~= p@);
    true
}

/// The value of a string of decimal digits (zero for the empty string), or
/// `None` when some character is not a decimal digit.
pub open spec fn decimal_digits_value(s: Seq<char>) -> Option<nat>
    decreases s.len(),
{
    if s.len() == 0 {
        Some(0)
    } else {
        match decimal_digits_value(s.drop_last()) {
            Some(a) => if '0' <= s.last() && s.last() <= '9' {
                Some(a * 10 + (((s.last() as nat) - ('0' as nat)) as nat))
            } else {
                None
            },
            None => None,
        }
    }
}

/// What `str::parse::<u32>` accepts and returns: an optional `+` sign
/// followed by at least one decimal digit, with a value that fits in 32
/// bits.
pub open spec fn parsed_u32(s: Seq<char>) -> Option<u32> {
    let digits = if s.len() > 0 && s[0] == '+' {
        s.skip(1)
    } else {
        s
    };
    if digits.len() == 0 {
        None
    } else {
        match decimal_digits_value(digits) {
            Some(v) => if v <= 0xFFFF_FFFF {
                Some(v as u32)
            } else {
                None
            },
            None => None,
        }
    }
}

proof fn lemma_decimal_prefix(s: Seq<char>, k: int)
    requires
        0 <= k <= s.len(),
    ensures
        decimal_digits_value(s.take(k)) is None ==> decimal_digits_value(s) is None,
        match (decimal_digits_value(s.take(k)), decimal_digits_value(s)) {
            (Some(a), Some(b)) => a <= b,
            _ => true,
        },
    decreases s.len() - k,
{
    if k == s.len() {
        assert(s.take(k) =~= s);
    } else {
        lemma_decimal_prefix(s.drop_last(), k);
        assert(s.drop_last().take(k) =~= s.take(k));
    }
}

/// Parses a decimal number as `str::parse::<u32>` does.
pub fn parse_u32(text: &str) -> (r: Option<u32>)
    ensures
        r == parsed_u32(text@),
{
    let s = chars_of(text);
    let mut i: usize = 0;
    if s.len() > 0 && s[0] == '+' {
        i = 1;
    }
    let ghost digits = s@.skip(i as int);
    assert(digits =~= (if s@.len() > 0 && s@[0] == '+' {
        s@.skip(1)
    } else {
        s@
    }));
    if i == s.len() {
        return None;
    }
    let mut acc: u64 = 0;
    let mut j = i;
    assert(digits.take(0) =~= Seq::<char>::empty());
    while j < s.len()
        invariant
            i <= j <= s.len(),
            i < s.len(),
            s@ == text@,
            digits == s@.skip(i as int),
            digits == (if s@.len() > 0 && s@[0] == '+' {
                s@.skip(1)
            } else {
                s@
            }),
            decimal_digits_value(digits.take(j - i)) == Some(acc as nat),
            acc <= 0xFFFF_FFFF,
        decreases s.len() - j,
    {
        let c = s[j];
        proof {
            assert(digits.take(j - i + 1).drop_last() =~= digits.take(j - i));
            assert(digits[j - i] == s@[j as int]);
        }
        if c < '0' || c > '9' {
            proof {
                lemma_decimal_prefix(digits, j - i + 1);
            }
            return None;
        }
        let next = acc * 10 + ((c as u32) - ('0' as u32)) as u64;
        if next > 0xFFFF_FFFF {
            proof {
                lemma_decimal_prefix(digits, j - i + 1);
            }
            return None;
        }
        acc = next;
        j = j + 1;
    }
    assert(digits.take(j - i) =~= digits);
    Some(acc as u32)
}

/// `s` without its leading characters equal to `c`.
pub open spec fn trim_start_char(s: Seq<char>, c: char) -> Seq<char>
    decreases s.len(),
{
    if s.len() > 0 && s[0] == c {
        trim_start_char(s.drop_first(), c)
    } else {
        s
    }
}

/// `s` without its trailing characters equal to `c`.
pub open spec fn trim_end_char(s: Seq<char>, c: char) -> Seq<char>
    decreases s.len(),
{
    if s.len() > 0 && s.last() == c {
        trim_end_char(s.drop_last(), c)
    } else {
        s
    }
}

/// `s` without the characters equal to `c` at either end, as
/// `str::trim_matches(c)` returns it.
pub open spec fn trim_char(s: Seq<char>, c: char) -> Seq<char> {
    trim_end_char(trim_start_char(s, c), c)
}

/// `s` without the characters equal to `c` at either end.
pub fn trim_char_exec(text: &str, c: char) -> (r: String)
    ensures
        r@ == trim_char(text@, c),
{
    let s = chars_of(text);
    let mut a: usize = 0;
    assert(s@.skip(0) =~= s@);
    while a < s.len() && s[a] == c
        invariant
            a <= s.len(),
            trim_start_char(s@.skip(a as int), c) == trim_start_char(s@, c),
        decreases s.len() - a,
    {
        assert(s@.skip(a as int).drop_first() =~= s@.skip(a + 1));
        a = a + 1;
    }
    assert(s@.subrange(a as int, s@.len() as int) =~= s@.skip(a as int));
    let mut b: usize = s.len();
    while b > a && s[b - 1] == c
        invariant
            a <= b <= s.len(),
            trim_start_char(s@, c) == s@.skip(a as int),
            trim_end_char(s@.subrange(a as int, b as int), c) == trim_char(s@, c),
        decreases b,
    {
        assert(s@.subrange(a as int, b as int).drop_last() =~= s@.subrange(a as int, b - 1));
        b = b - 1;
    }
    let mut r = String::new();
    let mut i = a;
    while i < b
        invariant
            a <= i <= b <= s.len(),
            r@ == s@.subrange(a as int, i as int),
        decreases b - i,
    {
        push_char(&mut r, s[i]);
        i = i + 1;
        assert(r@ =~= s@.subrange(a as int, i as int));
    }
    r
}

/// The characters of each string.
pub open spec fn texts(v: Seq<String>) -> Seq<Seq<char>> {
    Seq::new(v.len(), |i: int| v[i]@)
}

/// The pieces of `s` between occurrences of `sep`, as `str::split(sep)`
/// yields them (one empty piece for the empty string).
pub open spec fn split_on(s: Seq<char>, sep: char) -> Seq<Seq<char>>
    decreases s.len(),
{
    if s.len() == 0 {
        seq![Seq::empty()]
    } else {
        let r = split_on(s.drop_last(), sep);
        if s.last() == sep {
            r.push(Seq::empty())
        } else {
            r.update(r.len() - 1, r.last().push(s.last()))
        }
    }
}

/// `str::split` always yields at least one piece.
pub proof fn lemma_split_on_nonempty(s: Seq<char>, sep: char)
    ensures
        split_on(s, sep).len() >= 1,
    decreases s.len(),
{
    if s.len() > 0 {
        lemma_split_on_nonempty(s.drop_last(), sep);
    }
}

/// The pieces of the text between occurrences of `sep`.
pub fn split_on_exec(text: &str, sep: char) -> (r: Vec<String>)
    ensures
        texts(r@) == split_on(text@, sep),
{
    let s = chars_of(text);
    let mut pieces: Vec<String> = Vec::new();
    let mut cur = String::new();
    let mut i: usize = 0;
    proof {
        assert(s@.take(0) =~= Seq::<char>::empty());
    }
    while i < s.len()
        invariant
            i <= s.len(),
            s@ == text@,
            texts(pieces@).push(cur@) == split_on(s@.take(i as int), sep),
        decreases s.len() - i,
    {
        let c = s[i];
        proof {
            assert(s@.take(i + 1).drop_last() =~= s@.take(i as int));
            assert(s@.take(i + 1).last() == c);
            lemma_split_on_nonempty(s@.take(i as int), sep);
        }
        if c == sep {
            let ghost before = texts(pieces@).push(cur@);
            let done = cur;
            pieces.push(done);
            cur = String::new();
            assert(texts(pieces@).push(cur@) =~= before.push(Seq::empty()));
        } else {
            let ghost before = texts(pieces@).push(cur@);
            push_char(&mut cur, c);
            assert(texts(pieces@).push(cur@) =~= before.update(
                before.len() - 1,
                before.last().push(c),
            ));
        }
        i = i + 1;
    }
    let ghost all = texts(pieces@).push(cur@);
    pieces.push(cur);
    assert(texts(pieces@) =~= all);
    assert(s@.take(s@.len() as int) =~= s@);
    pieces
}

/// Whether `char::is_whitespace` holds: the Unicode `White_Space`
/// characters.
pub open spec fn is_space(c: char) -> bool {
    ||| ('\u{9}' <= c && c <= '\u{D}')
    ||| c == ' '
    ||| c == '\u{85}'
    ||| c == '\u{A0}'
    ||| c == '\u{1680}'
    ||| ('\u{2000}' <= c && c <= '\u{200A}')
    ||| c == '\u{2028}'
    ||| c == '\u{2029}'
    ||| c == '\u{202F}'
    ||| c == '\u{205F}'
    ||| c == '\u{3000}'
}

pub(crate) fn is_space_exec(c: char) -> (r: bool)
    ensures
        r == is_space(c),
{
    ('\u{9}' <= c && c <= '\u{D}') || c == ' ' || c == '\u{85}' || c == '\u{A0}' || c == '\u{1680}'
        || ('\u{2000}' <= c && c <= '\u{200A}') || c == '\u{2028}' || c == '\u{2029}' || c
        == '\u{202F}' || c == '\u{205F}' || c == '\u{3000}'
}

/// `s` without leading whitespace.
pub open spec fn trim_start_space(s: Seq<char>) -> Seq<char>
    decreases s.len(),
{
    if s.len() > 0 && is_space(s[0]) {
        trim_start_space(s.drop_first())
    } else {
        s
    }
}

/// `s` without trailing whitespace.
pub open spec fn trim_end_space(s: Seq<char>) -> Seq<char>
    decreases s.len(),
{
    if s.len() > 0 && is_space(s.last()) {
        trim_end_space(s.drop_last())
    } else {
        s
    }
}

/// `s` without whitespace at either end, as `str::trim` returns it.
pub open spec fn trim_space(s: Seq<char>) -> Seq<char> {
    trim_end_space(trim_start_space(s))
}

/// `s` without whitespace at either end.
pub fn trim_space_exec(text: &str) -> (r: String)
    ensures
        r@ == trim_space(text@),
{
    let s = chars_of(text);
    let mut a: usize = 0;
    assert(s@.skip(0) =~= s@);
    while a < s.len() && is_space_exec(s[a])
        invariant
            a <= s.len(),
            trim_start_space(s@.skip(a as int)) == trim_start_space(s@),
        decreases s.len() - a,
    {
        assert(s@.skip(a as int).drop_first() =~= s@.skip(a + 1));
        a = a + 1;
    }
    assert(s@.subrange(a as int, s@.len() as int) =~= s@.skip(a as int));
    let mut b: usize = s.len();
    while b > a && is_space_exec(s[b - 1])
        invariant
            a <= b <= s.len(),
            trim_start_space(s@) == s@.skip(a as int),
            trim_end_space(s@.subrange(a as int, b as int)) == trim_space(s@),
        decreases b,
    {
        assert(s@.subrange(a as int, b as int).drop_last() =~= s@.subrange(a as int, b - 1));
        b = b - 1;
    }
    let mut r = String::new();
    let mut i = a;
    while i < b
        invariant
            a <= i <= b <= s.len(),
            r@ == s@.subrange(a as int, i as int),
        decreases b - i,
    {
        push_char(&mut r, s[i]);
        i = i + 1;
        assert(r@ =~= s@.subrange(a as int, i as int));
    }
    r
}

} // verus!
