//! `order`: setting `BootOrder` from a comma-separated list of IDs.
use vstd::prelude::*;
use vstd::view::View as _;

use crate::boot::manager::{u16_le_bytes, BootManager};
use crate::error::{boot_id_of, law_boot_id_text_roundtrip, parse_boot_id, AppError};
use crate::text::{
    is_space, is_space_exec, trim_end_space, trim_space, trim_space_exec, trim_start_space,
    chars_of, format_hex4, hex4, hex_digit_upper, push_char, push_str, split_on, split_on_exec, texts, lemma_split_on_nonempty,
};

verus! {

/// The pieces of `s` between commas, as `str::split(',')` yields them
/// (one empty piece for the empty string).
pub open spec fn split_commas(s: Seq<char>) -> Seq<Seq<char>> {
    split_on(s, ',')
}

/// The IDs that the trimmed pieces denote, or the index of the first piece
/// that is not an ID.
pub open spec fn piece_ids(pieces: Seq<Seq<char>>) -> Result<Seq<u16>, int>
    decreases pieces.len(),
{
    if pieces.len() == 0 {
        Ok(Seq::empty())
    } else {
        match piece_ids(pieces.drop_last()) {
            Err(i) => Err(i),
            Ok(ids) => match boot_id_of(trim_space(pieces.last())) {
                Some(id) => Ok(ids.push(id)),
                None => Err(pieces.len() - 1),
            },
        }
    }
}

/// The IDs as `format!("{id:04X}")` joined by `", "`.
pub open spec fn joined_ids(ids: Seq<u16>) -> Seq<char>
    decreases ids.len(),
{
    if ids.len() == 0 {
        Seq::empty()
    } else if ids.len() == 1 {
        hex4(ids[0])
    } else {
        joined_ids(ids.drop_last()) + ", "@ + hex4(ids.last())
    }
}

/// The pieces of the text between commas.
pub fn split_commas_exec(text: &str) -> (r: Vec<String>)
    ensures
        texts(r@) == split_commas(text@),
{
    split_on_exec(text, ',')
}

/// Sets `BootOrder` to the comma-separated IDs (each trimmed) and returns
/// the line to print; the first piece that is not an ID is refused and
/// nothing is written.
pub fn run(mgr: &mut BootManager, ids_str: &str) -> (r: Result<Vec<String>, AppError>)
    ensures
        match piece_ids(split_commas(ids_str@)) {
            Err(i) => final(mgr).vars() == old(mgr).vars() && (r matches Err(
                AppError::InvalidEntryId { input },
            ) && input@ == trim_space(split_commas(ids_str@)[i])),
            Ok(ids) => {
                &&& r matches Ok(lines) ==> texts(lines@) == seq![
                    "Boot order set to: "@ + joined_ids(ids),
                ]
                &&& r is Ok && (old(mgr).file_backed() || ids.len() > 0) ==> final(mgr).vars()
                    == old(mgr).vars().insert("BootOrder"@, u16_le_bytes(ids))
                &&& final(mgr).vars().remove("BootOrder"@) == old(mgr).vars().remove("BootOrder"@)
                &&& old(mgr).file_backed() ==> r is Ok
                &&& r is Err ==> (r matches Err(AppError::Efi { .. }))
            },
        },
{
    let pieces = split_commas_exec(ids_str);
    let ghost ps = split_commas(ids_str@);
    let mut ids: Vec<u16> = Vec::new();
    let mut i: usize = 0;
    assert(ps.take(0) =~= Seq::<Seq<char>>::empty());
    while i < pieces.len()
        invariant
            i <= pieces@.len(),
            ps == split_commas(ids_str@),
            texts(pieces@) == ps,
            piece_ids(ps.take(i as int)) == Ok::<Seq<u16>, int>(ids@),
        decreases pieces.len() - i,
    {
        let t = trim_space_exec(pieces[i].as_str());
        proof {
            assert(ps.take(i + 1).drop_last() =~= ps.take(i as int));
            assert(ps[i as int] == pieces@[i as int]@);
        }
        match parse_boot_id(t.as_str()) {
            Ok(id) => {
                ids.push(id);
            },
            Err(e) => {
                proof {
                    assert(ps.take(i + 1).last() == ps[i as int]);
                    assert(piece_ids(ps.take(i + 1)) == Err::<Seq<u16>, int>(i as int));
                    lemma_piece_ids_prefix_err(ps, i as int + 1);
                }
                return Err(e);
            },
        }
        i = i + 1;
    }
    assert(ps.take(ps.len() as int) =~= ps);
    let ghost want = ids@;
    let mut line = String::from_str("Boot order set to: ");
    let mut k: usize = 0;
    while k < ids.len()
        invariant
            k <= ids@.len(),
            ids@ == want,
            line@ == "Boot order set to: "@ + joined_ids(want.take(k as int)),
        decreases ids.len() - k,
    {
        proof {
            assert(want.take(k + 1).drop_last() =~= want.take(k as int));
        }
        if k > 0 {
            push_str(&mut line, ", ");
        }
        push_str(&mut line, format_hex4(ids[k]).as_str());
        proof {
            if k == 0 {
                assert(want.take(0) =~= Seq::<u16>::empty());
            }
        }
        k = k + 1;
    }
    assert(want.take(want.len() as int) =~= want);
    match mgr.set_boot_order(ids) {
        Ok(()) => {},
        Err(e) => {
            return Err(e);
        },
    }
    let lines = vec![line];
    assert(texts(lines@) =~= seq!["Boot order set to: "@ + joined_ids(want)]);
    Ok(lines)
}

/// A failure in the first `n` pieces is the failure of the whole list.
proof fn lemma_piece_ids_prefix_err(ps: Seq<Seq<char>>, n: int)
    requires
        0 <= n <= ps.len(),
        piece_ids(ps.take(n)) is Err,
    ensures
        piece_ids(ps) == piece_ids(ps.take(n)),
    decreases ps.len() - n,
{
    if n == ps.len() {
        assert(ps.take(n) =~= ps);
    } else {
        assert(ps.take(n + 1).drop_last() =~= ps.take(n));
        lemma_piece_ids_prefix_err(ps, n + 1);
    }
}

proof fn lemma_split_comma(s: Seq<char>)
    ensures
        split_commas(s + seq![',']) == split_commas(s).push(Seq::empty()),
{
    assert((s + seq![',']).drop_last() =~= s);
}

proof fn lemma_split_no_comma(s: Seq<char>, t: Seq<char>)
    requires
        forall|i: int| 0 <= i < t.len() ==> t[i] != ',',
    ensures
        split_commas(s + t) == split_commas(s).update(
            split_commas(s).len() - 1,
            split_commas(s).last() + t,
        ),
    decreases t.len(),
{
    lemma_split_on_nonempty(s, ',');
    let r = split_commas(s);
    let n = r.len() - 1;
    if t.len() == 0 {
        assert(s + t =~= s);
        assert(r.last() + t =~= r.last());
        assert(r.update(n, r.last() + t) =~= r);
    } else {
        let t0 = t.drop_last();
        lemma_split_no_comma(s, t0);
        assert((s + t).drop_last() =~= s + t0);
        assert((s + t).last() == t.last());
        assert((r.last() + t0).push(t.last()) =~= r.last() + t);
        assert(split_commas(s + t) =~= r.update(n, r.last() + t));
    }
}

proof fn lemma_hex_digit_plain(v: nat)
    requires
        v < 16,
    ensures
        hex_digit_upper(v) != ',',
        !is_space(hex_digit_upper(v)),
{
}

proof fn lemma_hex4_plain(id: u16)
    ensures
        forall|i: int| 0 <= i < hex4(id).len() ==> hex4(id)[i] != ',' && !is_space(#[trigger] hex4(id)[i]),
        hex4(id).len() == 4,
{
    lemma_hex_digit_plain((id / 4096) as nat);
    lemma_hex_digit_plain(((id / 256) % 16) as nat);
    lemma_hex_digit_plain(((id / 16) % 16) as nat);
    lemma_hex_digit_plain((id % 16) as nat);
}

proof fn lemma_trim_spaced_hex4(id: u16)
    ensures
        trim_space(seq![' '] + hex4(id)) == hex4(id),
{
    lemma_hex4_plain(id);
    let h = hex4(id);
    assert((seq![' '] + h).drop_first() =~= h);
    assert(trim_start_space(seq![' '] + h) == trim_start_space(h));
    assert(trim_start_space(h) == h);
    assert(trim_end_space(h) == h);
}

/// The boot order that `order` prints (IDs as four hexadecimal digits
/// joined by `", "`), when given to `order` again, sets the same order.
pub proof fn law_printed_order_reparses(ids: Seq<u16>)
    requires
        ids.len() >= 1,
    ensures
        piece_ids(split_commas(joined_ids(ids))) == Ok::<Seq<u16>, int>(ids),
    decreases ids.len(),
{
    let h = hex4(ids.last());
    lemma_hex4_plain(ids.last());
    law_boot_id_text_roundtrip(ids.last());
    if ids.len() == 1 {
        lemma_split_no_comma(Seq::empty(), h);
        assert(Seq::<char>::empty() + h =~= h);
        assert(split_commas(Seq::<char>::empty()) =~= seq![Seq::<char>::empty()]);
        assert(Seq::<char>::empty() + h =~= h);
        let p = split_commas(h);
        assert(p =~= seq![h]);
        assert(p.drop_last() =~= Seq::<Seq<char>>::empty());
        assert(trim_start_space(h) == h);
        assert(trim_end_space(h) == h);
        assert(trim_space(h) == h);
        assert(boot_id_of(trim_space(p.last())) == Some(ids[0]));
        assert(piece_ids(p.drop_last()) == Ok::<Seq<u16>, int>(Seq::empty()));
        assert(piece_ids(p) == Ok::<Seq<u16>, int>(Seq::<u16>::empty().push(ids[0])));
        assert(Seq::<u16>::empty().push(ids[0]) =~= ids);
    } else {
        let rest = ids.drop_last();
        law_printed_order_reparses(rest);
        let j = joined_ids(rest);
        reveal_strlit(", ");
        assert(joined_ids(ids) =~= (j + seq![',']) + (seq![' '] + h));
        lemma_split_comma(j);
        assert forall|i: int| 0 <= i < (seq![' '] + h).len() implies (seq![' '] + h)[i] != ',' by {
            if i > 0 {
                assert((seq![' '] + h)[i] == h[i - 1]);
            }
        }
        lemma_split_no_comma(j + seq![','], seq![' '] + h);
        let p = split_commas(j);
        assert(Seq::<char>::empty() + (seq![' '] + h) =~= seq![' '] + h);
        assert(split_commas(joined_ids(ids)) =~= p.push(seq![' '] + h));
        lemma_trim_spaced_hex4(ids.last());
        let q = p.push(seq![' '] + h);
        assert(q.drop_last() =~= p);
        assert(q.last() == seq![' '] + h);
        assert(boot_id_of(trim_space(q.last())) == Some(ids.last()));
        assert(piece_ids(q) == Ok::<Seq<u16>, int>(rest.push(ids.last())));
        assert(rest.push(ids.last()) =~= ids);
    }
}

} // verus!
