//! The boot manager: boot entries, `BootOrder`, `BootNext` and
//! `BootCurrent` over an EFI variable store.
use vstd::prelude::*;

use crate::boot::entry::{
    describes, from_raw_result, malformed_content_text, parse_failure_message, parse_failure_text,
    BootEntryInfo,
};
use crate::boot::load_option::{
    decode_load_option, decoded_load_option, encode_load_option, encoded_load_option, is_active,
    load_option_encodable, load_option_framed, load_option_roundtrips, with_active, LoadOption, LoadOptionView,
};
use crate::boot::store::{store_vars, VarStore};
use crate::error::AppError;
use crate::text::{format_hex4, hex4, push_str};

verus! {

/// The variables of a store, by name.
pub type Vars = Map<Seq<char>, Seq<u8>>;

/// The name of the variable that holds boot entry `id`: `Boot####`.
pub open spec fn boot_var_name(id: u16) -> Seq<char> {
    "Boot"@ + hex4(id)
}

/// The name of the variable that holds boot entry `id`.
pub fn boot_var_name_of(id: u16) -> (s: String)
    ensures
        s@ == boot_var_name(id),
{
    let mut s = String::from_str("Boot");
    let h = format_hex4(id);
    push_str(&mut s, h.as_str());
    s
}

/// Little-endian 16-bit values read from consecutive byte pairs.
pub open spec fn u16_le_seq(b: Seq<u8>) -> Seq<u16> {
    Seq::new(b.len() / 2, |i: int| (b[2 * i] as nat + 256 * (b[2 * i + 1] as nat)) as u16)
}

/// 16-bit values written as consecutive little-endian byte pairs.
pub open spec fn u16_le_bytes(ids: Seq<u16>) -> Seq<u8> {
    Seq::new(
        2 * ids.len(),
        |j: int|
            if j % 2 == 0 {
                (ids[j / 2] % 256) as u8
            } else {
                (ids[j / 2] / 256) as u8
            },
    )
}

/// The boot order the store holds: `BootOrder` read as little-endian IDs,
/// when it exists and has an even number of bytes.
pub open spec fn boot_order_of(vars: Vars) -> Option<Seq<u16>> {
    if vars.contains_key("BootOrder"@) && vars["BootOrder"@].len() % 2 == 0 {
        Some(u16_le_seq(vars["BootOrder"@]))
    } else {
        None
    }
}

/// The boot order, or the empty order when there is none to read.
pub open spec fn order_or_empty(vars: Vars) -> Seq<u16> {
    match boot_order_of(vars) {
        Some(o) => o,
        None => Seq::empty(),
    }
}

/// A 16-bit variable such as `BootNext`: its first two bytes, little-endian,
/// when it exists and has at least two bytes.
pub open spec fn u16_var(vars: Vars, name: Seq<char>) -> Option<u16> {
    if vars.contains_key(name) && vars[name].len() >= 2 {
        Some((vars[name][0] as nat + 256 * (vars[name][1] as nat)) as u16)
    } else {
        None
    }
}

/// The sequence with every occurrence of `x` removed, order kept.
pub open spec fn without(s: Seq<u16>, x: u16) -> Seq<u16>
    decreases s.len(),
{
    if s.len() == 0 {
        s
    } else if s.last() == x {
        without(s.drop_last(), x)
    } else {
        without(s.drop_last(), x).push(s.last())
    }
}

/// Entry `id` exists and its bytes decode.
pub open spec fn entry_decodes(vars: Vars, id: u16) -> bool {
    &&& vars.contains_key(boot_var_name(id))
    &&& load_option_framed(vars[boot_var_name(id)])
    &&& decoded_load_option(vars[boot_var_name(id)]) is Ok
}

/// The IDs of `order` whose entries decode, in order.
pub open spec fn listable_ids(vars: Vars, order: Seq<u16>) -> Seq<u16>
    decreases order.len(),
{
    if order.len() == 0 {
        Seq::empty()
    } else {
        let rest = listable_ids(vars, order.drop_last());
        if entry_decodes(vars, order.last()) {
            rest.push(order.last())
        } else {
            rest
        }
    }
}

/// `es` shows the entries of the boot order that decode, in order.
pub open spec fn lists_entries(es: Seq<BootEntryInfo>, vars: Vars) -> bool {
    boot_order_of(vars) matches Some(o) && {
        let ids = listable_ids(vars, o);
        &&& es.len() == ids.len()
        &&& forall|k: int|
            0 <= k < ids.len() ==> describes(
                #[trigger] es[k],
                ids[k],
                vars[boot_var_name(ids[k])],
                decoded_entry(vars, ids[k]),
            )
    }
}

/// The decoded option of entry `id`.
pub open spec fn decoded_entry(vars: Vars, id: u16) -> LoadOptionView {
    decoded_load_option(vars[boot_var_name(id)])->Ok_0
}

/// The variables after entry `id` is written with `bytes` and appended to
/// the boot order (read as empty when unreadable) unless already there.
pub open spec fn after_create(vars: Vars, id: u16, bytes: Seq<u8>) -> Vars {
    let v1 = vars.insert(boot_var_name(id), bytes);
    let order = order_or_empty(v1);
    if order.contains(id) {
        v1
    } else {
        v1.insert("BootOrder"@, u16_le_bytes(order.push(id)))
    }
}

/// Deleting entry `id` tells exactly what the store then holds: the store
/// is the file store, or the boot order left is not empty (what a
/// zero-length write leaves in a firmware variable is not known).
pub open spec fn deletes_exactly(file: bool, vars: Vars, id: u16) -> bool {
    file || without(order_or_empty(vars.remove(boot_var_name(id))), id).len() > 0
}

/// What a failed create of entry `id` with `bytes` can have left: either
/// writing `Boot####` failed (that variable is unknown, every other one is
/// unchanged), or it was written and writing `BootOrder` failed (that
/// variable is unknown, every other one as after the first write).
pub open spec fn create_stopped(before: Vars, after: Vars, id: u16, bytes: Seq<u8>) -> bool {
    ||| after.remove(boot_var_name(id)) == before.remove(boot_var_name(id))
    ||| after.remove("BootOrder"@) == before.insert(boot_var_name(id), bytes).remove("BootOrder"@)
}

/// The variables after entry `id` is deleted and every occurrence of it is
/// removed from the boot order (read as empty when unreadable).
pub open spec fn after_delete(vars: Vars, id: u16) -> Vars {
    let v1 = vars.remove(boot_var_name(id));
    v1.insert("BootOrder"@, u16_le_bytes(without(order_or_empty(v1), id)))
}

/// The option with `LOAD_OPTION_ACTIVE` flipped.
pub open spec fn toggled(v: LoadOptionView) -> LoadOptionView {
    LoadOptionView {
        attributes: with_active(v.attributes, !is_active(v.attributes)),
        description: v.description,
        file_path_list: v.file_path_list,
        optional_data: v.optional_data,
    }
}

/// `id` is neither in the boot order nor held by a variable.
pub open spec fn id_is_free(vars: Vars, id: u16) -> bool {
    !order_or_empty(vars).contains(id) && !vars.contains_key(boot_var_name(id))
}

/// What entry `id` decodes to, when it exists and decodes.
pub open spec fn entry_value(vars: Vars, id: u16) -> Option<LoadOptionView> {
    if entry_decodes(vars, id) {
        Some(decoded_entry(vars, id))
    } else {
        None
    }
}

/// `e` is the error that reading entry `id` gives when it does not exist or
/// does not decode.
pub open spec fn entry_read_error(vars: Vars, id: u16, e: AppError) -> bool {
    let name = boot_var_name(id);
    if !vars.contains_key(name) {
        e == AppError::EntryNotFound { id }
    } else if !load_option_framed(vars[name]) {
        e matches AppError::Parse { message } && message@ == parse_failure_text(
            id,
            malformed_content_text(),
        )
    } else {
        match decoded_load_option(vars[name]) {
            Err(t) => e matches AppError::Parse { message } && message@ == parse_failure_text(id, t),
            Ok(_) => false,
        }
    }
}

/// `id` is free and no lower ID is.
pub open spec fn is_lowest_free(vars: Vars, id: u16) -> bool {
    id_is_free(vars, id) && forall|j: u16| j < id ==> !id_is_free(vars, j)
}

/// The lowest free ID, if there is one.
pub open spec fn lowest_free_id(vars: Vars) -> Option<u16> {
    if exists|i: u16| is_lowest_free(vars, i) {
        Some(choose|i: u16| is_lowest_free(vars, i))
    } else {
        None
    }
}

/// An ID that is free while no lower one is, is the lowest free ID.
pub proof fn lemma_lowest_free_unique(vars: Vars, id: u16)
    requires
        is_lowest_free(vars, id),
    ensures
        lowest_free_id(vars) == Some(id),
{
    let c = choose|i: u16| is_lowest_free(vars, i);
    assert(is_lowest_free(vars, c));
    if c < id {
        assert(!id_is_free(vars, c));
    } else if id < c {
        assert(!id_is_free(vars, id));
    }
}

/// The message of an option that efivar cannot encode.
pub open spec fn unencodable_text(id: u16) -> Seq<char> {
    "Boot"@ + hex4(id) + " cannot be encoded"@
}

fn unencodable_message(id: u16) -> (s: String)
    ensures
        s@ == unencodable_text(id),
{
    let mut s = String::from_str("Boot");
    let h = format_hex4(id);
    push_str(&mut s, h.as_str());
    push_str(&mut s, " cannot be encoded");
    s
}

/// Decodes consecutive little-endian byte pairs (a trailing odd byte is
/// ignored).
pub fn decode_u16_le(b: &[u8]) -> (r: Vec<u16>)
    ensures
        r@ == u16_le_seq(b@),
{
    let n = b.len() / 2;
    let mut r: Vec<u16> = Vec::new();
    let mut i: usize = 0;
    while i < n
        invariant
            n == b.len() / 2,
            i <= n,
            r@.len() == i,
            forall|k: int| 0 <= k < i ==> r@[k] == u16_le_seq(b@)[k],
        decreases n - i,
    {
        r.push((b[2 * i] as u16) + 256 * (b[2 * i + 1] as u16));
        i = i + 1;
    }
    assert(r@ =~= u16_le_seq(b@));
    r
}

/// Encodes values as consecutive little-endian byte pairs.
pub fn encode_u16_le(ids: &[u16]) -> (r: Vec<u8>)
    ensures
        r@ == u16_le_bytes(ids@),
{
    let mut r: Vec<u8> = Vec::new();
    let mut i: usize = 0;
    while i < ids.len()
        invariant
            i <= ids.len(),
            r@.len() == 2 * i,
            forall|k: int| 0 <= k < 2 * i ==> r@[k] == u16_le_bytes(ids@)[k],
        decreases ids.len() - i,
    {
        r.push((ids[i] % 256) as u8);
        r.push((ids[i] / 256) as u8);
        i = i + 1;
    }
    assert(r@ =~= u16_le_bytes(ids@));
    r
}

/// Whether the sequence holds `x`.
pub fn contains_id(v: &[u16], x: u16) -> (r: bool)
    ensures
        r == v@.contains(x),
{
    let mut i: usize = 0;
    while i < v.len()
        invariant
            i <= v.len(),
            forall|k: int| 0 <= k < i ==> v@[k] != x,
        decreases v.len() - i,
    {
        if v[i] == x {
            assert(v@[i as int] == x);
            return true;
        }
        i = i + 1;
    }
    false
}

proof fn lemma_without_step(s: Seq<u16>, x: u16, i: int)
    requires
        0 <= i < s.len(),
    ensures
        without(s.take(i + 1), x) == if s[i] == x {
            without(s.take(i), x)
        } else {
            without(s.take(i), x).push(s[i])
        },
{
    assert(s.take(i + 1).drop_last() =~= s.take(i));
}

/// The sequence with every occurrence of `x` removed.
pub fn remove_id(v: &[u16], x: u16) -> (r: Vec<u16>)
    ensures
        r@ == without(v@, x),
{
    let mut r: Vec<u16> = Vec::new();
    let mut i: usize = 0;
    assert(v@.take(0) =~= Seq::<u16>::empty());
    while i < v.len()
        invariant
            i <= v.len(),
            r@ == without(v@.take(i as int), x),
        decreases v.len() - i,
    {
        proof {
            lemma_without_step(v@, x, i as int);
        }
        if v[i] != x {
            r.push(v[i]);
        }
        i = i + 1;
    }
    assert(v@.take(v.len() as int) =~= v@);
    r
}

/// An entry's variable is never `BootOrder`, `BootNext` or `BootCurrent`.
pub proof fn lemma_names_differ(id: u16)
    ensures
        boot_var_name(id) != "BootOrder"@,
        boot_var_name(id) != "BootNext"@,
        boot_var_name(id) != "BootCurrent"@,
{
    reveal_strlit("Boot");
    reveal_strlit("BootOrder");
    reveal_strlit("BootNext");
    reveal_strlit("BootCurrent");
    assert(boot_var_name(id).len() == 8);
    assert(boot_var_name(id)[4] == hex4(id)[0]);
    assert("BootNext"@[4] == 'N');
    assert(hex4(id)[0] != 'N');
}

proof fn lemma_order_ignores_entry(vars: Vars, id: u16, bytes: Seq<u8>)
    ensures
        boot_order_of(vars.insert(boot_var_name(id), bytes)) == boot_order_of(vars),
        boot_order_of(vars.remove(boot_var_name(id))) == boot_order_of(vars),
{
    lemma_names_differ(id);
}

proof fn lemma_u16_le_roundtrip(ids: Seq<u16>)
    ensures
        u16_le_seq(u16_le_bytes(ids)) == ids,
{
    let b = u16_le_bytes(ids);
    assert forall|i: int| 0 <= i < ids.len() implies #[trigger] u16_le_seq(b)[i] == ids[i] by {
        assert((2 * i) / 2 == i && (2 * i) % 2 == 0);
        assert((2 * i + 1) / 2 == i && (2 * i + 1) % 2 == 1);
        assert(b[2 * i] == (ids[i] % 256) as u8);
        assert(b[2 * i + 1] == (ids[i] / 256) as u8);
    }
    assert(u16_le_seq(b) =~= ids);
}

/// What `set_boot_order` writes, `get_boot_order` reads back: the order
/// that a store holds after `BootOrder` is set to `ids` is `ids`.
pub proof fn law_boot_order_write_read(vars: Vars, ids: Seq<u16>)
    ensures
        boot_order_of(vars.insert("BootOrder"@, u16_le_bytes(ids))) == Some(ids),
{
    lemma_u16_le_roundtrip(ids);
}

/// What `set_boot_next` writes, `get_boot_next` reads back.
pub proof fn law_boot_next_write_read(vars: Vars, id: u16)
    ensures
        u16_var(vars.insert("BootNext"@, u16_le_bytes(seq![id])), "BootNext"@) == Some(id),
{
    lemma_u16_le_roundtrip(seq![id]);
    assert(u16_le_seq(u16_le_bytes(seq![id]))[0] == id);
}

/// Creating an entry stores its bytes under `Boot####` and leaves its ID in
/// the boot order exactly where it was, or appended at the end when it was
/// not there; the other entries' variables are untouched.
pub proof fn law_create_adds_to_order(vars: Vars, id: u16, bytes: Seq<u8>)
    ensures
        after_create(vars, id, bytes)[boot_var_name(id)] == bytes,
        after_create(vars, id, bytes).contains_key(boot_var_name(id)),
        order_or_empty(after_create(vars, id, bytes)).contains(id),
        order_or_empty(vars).contains(id) ==> order_or_empty(after_create(vars, id, bytes))
            == order_or_empty(vars),
        !order_or_empty(vars).contains(id) ==> order_or_empty(after_create(vars, id, bytes))
            == order_or_empty(vars).push(id),
        forall|j: u16|
            j != id ==> #[trigger] after_create(vars, id, bytes).contains_key(boot_var_name(j))
                == vars.contains_key(boot_var_name(j)) && (vars.contains_key(boot_var_name(j))
                ==> after_create(vars, id, bytes)[boot_var_name(j)] == vars[boot_var_name(j)]),
{
    lemma_order_ignores_entry(vars, id, bytes);
    lemma_names_differ(id);
    let v1 = vars.insert(boot_var_name(id), bytes);
    let order = order_or_empty(v1);
    if !order.contains(id) {
        law_boot_order_write_read(v1, order.push(id));
        assert(order.push(id)[order.len() as int] == id);
    }
    assert forall|j: u16| j != id implies #[trigger] after_create(vars, id, bytes).contains_key(
        boot_var_name(j),
    ) == vars.contains_key(boot_var_name(j)) && (vars.contains_key(boot_var_name(j))
        ==> after_create(vars, id, bytes)[boot_var_name(j)] == vars[boot_var_name(j)]) by {
        lemma_names_differ(j);
        lemma_boot_names_injective(id, j);
    }
}

/// What is written under `Boot####` is what a later read of that entry
/// gives back: after the bytes of an option are stored, on their own or by
/// creating the entry, the entry decodes to that option.
pub proof fn law_written_entry_reads_back(
    vars: Vars,
    id: u16,
    bytes: Seq<u8>,
    v: LoadOptionView,
)
    requires
        load_option_framed(bytes),
        decoded_load_option(bytes) == Ok::<LoadOptionView, Seq<char>>(v),
    ensures
        entry_value(vars.insert(boot_var_name(id), bytes), id) == Some(v),
        entry_value(after_create(vars, id, bytes), id) == Some(v),
{
    law_create_adds_to_order(vars, id, bytes);
}

proof fn lemma_without_excludes(s: Seq<u16>, x: u16)
    ensures
        !without(s, x).contains(x),
        forall|y: u16| y != x ==> (s.contains(y) <==> #[trigger] without(s, x).contains(y)),
    decreases s.len(),
{
    if s.len() > 0 {
        lemma_without_excludes(s.drop_last(), x);
        assert forall|y: u16| y != x implies (s.contains(y) <==> #[trigger] without(s, x).contains(y)) by {
            if s.contains(y) {
                let k = choose|k: int| 0 <= k < s.len() && s[k] == y;
                if k < s.len() - 1 {
                    assert(s.drop_last()[k] == y);
                    assert(s.drop_last().contains(y));
                    assert(without(s.drop_last(), x).contains(y));
                    let m = choose|m: int|
                        0 <= m < without(s.drop_last(), x).len() && without(s.drop_last(), x)[m]
                            == y;
                    if s.last() != x {
                        assert(without(s, x)[m] == y);
                    }
                } else {
                    assert(without(s, x) == without(s.drop_last(), x).push(y));
                    assert(without(s, x)[without(s, x).len() - 1] == y);
                }
            }
            if without(s, x).contains(y) {
                let k = choose|k: int| 0 <= k < without(s, x).len() && without(s, x)[k] == y;
                if s.last() == x || k < without(s.drop_last(), x).len() {
                    assert(without(s.drop_last(), x)[k] == y);
                    assert(without(s.drop_last(), x).contains(y));
                    let m = choose|m: int| 0 <= m < s.drop_last().len() && s.drop_last()[m] == y;
                    assert(s[m] == y);
                } else {
                    assert(s[s.len() - 1] == y);
                }
            }
        }
        if without(s, x).contains(x) {
            let k = choose|k: int| 0 <= k < without(s, x).len() && without(s, x)[k] == x;
            if s.last() != x && k == without(s.drop_last(), x).len() {
            } else {
                assert(without(s.drop_last(), x)[k] == x);
            }
        }
    }
}

/// Different IDs name different `Boot####` variables.
pub proof fn lemma_boot_names_injective(a: u16, b: u16)
    ensures
        boot_var_name(a) == boot_var_name(b) ==> a == b,
{
    if boot_var_name(a) == boot_var_name(b) {
        assert(hex4(a) =~= boot_var_name(a).skip(4)) by {
            reveal_strlit("Boot");
        }
        assert(hex4(b) =~= boot_var_name(b).skip(4)) by {
            reveal_strlit("Boot");
        }
        crate::error::law_boot_id_text_roundtrip(a);
        crate::error::law_boot_id_text_roundtrip(b);
    }
}

/// Deleting an entry removes its variable and every occurrence of its ID
/// from the boot order, keeping the other IDs in their order; the other
/// entries' variables are untouched.
pub proof fn law_delete_removes_references(vars: Vars, id: u16)
    ensures
        !after_delete(vars, id).contains_key(boot_var_name(id)),
        order_or_empty(after_delete(vars, id)) == without(order_or_empty(vars), id),
        !order_or_empty(after_delete(vars, id)).contains(id),
        forall|j: u16|
            j != id ==> (order_or_empty(vars).contains(j) <==> #[trigger] order_or_empty(
                after_delete(vars, id),
            ).contains(j)),
        forall|j: u16|
            j != id ==> #[trigger] after_delete(vars, id).contains_key(boot_var_name(j))
                == vars.contains_key(boot_var_name(j)) && (vars.contains_key(boot_var_name(j))
                ==> after_delete(vars, id)[boot_var_name(j)] == vars[boot_var_name(j)]),
{
    lemma_order_ignores_entry(vars, id, Seq::empty());
    lemma_names_differ(id);
    let v1 = vars.remove(boot_var_name(id));
    law_boot_order_write_read(v1, without(order_or_empty(v1), id));
    lemma_without_excludes(order_or_empty(vars), id);
    assert forall|j: u16| j != id implies #[trigger] after_delete(vars, id).contains_key(
        boot_var_name(j),
    ) == vars.contains_key(boot_var_name(j)) && (vars.contains_key(boot_var_name(j))
        ==> after_delete(vars, id)[boot_var_name(j)] == vars[boot_var_name(j)]) by {
        lemma_names_differ(j);
        lemma_boot_names_injective(id, j);
    }
}

/// Toggling flips `LOAD_OPTION_ACTIVE` and keeps every other attribute bit
/// and every other field of the option.
pub proof fn law_toggle_flips_only_active(v: LoadOptionView)
    ensures
        is_active(toggled(v).attributes) == !is_active(v.attributes),
        toggled(v).attributes / 2 == v.attributes / 2,
        toggled(v).description == v.description,
        toggled(v).file_path_list == v.file_path_list,
        toggled(v).optional_data == v.optional_data,
        is_active(toggled(toggled(v)).attributes) == is_active(v.attributes),
        toggled(toggled(v)) == v,
{
}

/// High-level boot entry manager over an EFI variable store.
///
/// All read and write operations go through this struct to ensure
/// consistent behavior and error handling.
pub struct BootManager {
    store: VarStore,
}

impl BootManager {
    /// The variables of the store.
    pub closed spec fn vars(&self) -> Vars {
        store_vars(self.store)
    }

    /// The store is efivar's TOML file store, which accepts every write.
    pub closed spec fn file_backed(&self) -> bool {
        self.store.file_backed()
    }

    /// The store can delete variables.
    pub closed spec fn deletes(&self) -> bool {
        self.store.deletes()
    }

    /// A manager over the given store.
    pub fn new(store: VarStore) -> (m: Self)
        ensures
            m.vars() == store_vars(store),
            m.file_backed() == store.file_backed(),
            m.deletes() == store.deletes(),
    {
        BootManager { store }
    }

    /// The current `BootOrder` as a list of IDs.
    ///
    /// Fails with an `Efi` error when `BootOrder` cannot be read or has an
    /// odd number of bytes.
    pub fn get_boot_order(&self) -> (r: Result<Vec<u16>, AppError>)
        ensures
            match boot_order_of(self.vars()) {
                Some(o) => r matches Ok(v) && v@ == o,
                None => r matches Err(AppError::Efi { .. }),
            },
    {
        match self.store.read("BootOrder") {
            Err(e) => Err(AppError::Efi { message: e }),
            Ok(d) => {
                if d.len() % 2 != 0 {
                    Err(
                        AppError::Efi {
                            message: String::from_str("BootOrder has an odd number of bytes"),
                        },
                    )
                } else {
                    Ok(decode_u16_le(d.as_slice()))
                }
            },
        }
    }

    /// The boot order, or an empty one when it cannot be read.
    fn boot_order_or_empty(&self) -> (r: Vec<u16>)
        ensures
            r@ == order_or_empty(self.vars()),
    {
        match self.get_boot_order() {
            Ok(o) => o,
            Err(_) => Vec::new(),
        }
    }

    /// A single boot entry by ID.
    pub fn get_entry(&self, id: u16) -> (r: Result<BootEntryInfo, AppError>)
        ensures
            !self.vars().contains_key(boot_var_name(id)) ==> r == Err::<BootEntryInfo, AppError>(
                AppError::EntryNotFound { id },
            ),
            self.vars().contains_key(boot_var_name(id)) ==> from_raw_result(
                r,
                id,
                self.vars()[boot_var_name(id)],
            ),
    {
        let name = boot_var_name_of(id);
        match self.store.read(name.as_str()) {
            Err(_) => Err(AppError::EntryNotFound { id }),
            Ok(data) => BootEntryInfo::from_raw(id, data),
        }
    }

    /// All boot entries in `BootOrder` priority whose variables exist and
    /// decode; the others are skipped.
    pub fn list_entries(&self) -> (r: Result<Vec<BootEntryInfo>, AppError>)
        ensures
            match boot_order_of(self.vars()) {
                Some(o) => r matches Ok(es) && lists_entries(es@, self.vars()),
                None => r matches Err(AppError::Efi { .. }),
            },
    {
        let order = self.get_boot_order()?;
        let ghost vars = self.vars();
        let mut entries: Vec<BootEntryInfo> = Vec::new();
        let mut i: usize = 0;
        assert(order@.take(0) =~= Seq::<u16>::empty());
        while i < order.len()
            invariant
                i <= order.len(),
                vars == self.vars(),
                entries@.len() == listable_ids(vars, order@.take(i as int)).len(),
                forall|k: int|
                    0 <= k < entries@.len() ==> {
                        let ids = listable_ids(vars, order@.take(i as int));
                        describes(
                            #[trigger] entries@[k],
                            ids[k],
                            vars[boot_var_name(ids[k])],
                            decoded_entry(vars, ids[k]),
                        )
                    },
            decreases order.len() - i,
        {
            let id = order[i];
            proof {
                assert(order@.take(i + 1).drop_last() =~= order@.take(i as int));
            }
            match self.get_entry(id) {
                Ok(info) => {
                    entries.push(info);
                },
                Err(_) => {},
            }
            i = i + 1;
        }
        assert(order@.take(order.len() as int) =~= order@);
        Ok(entries)
    }

    /// The `BootCurrent` variable (which entry was booted).
    pub fn get_boot_current(&self) -> (r: Result<Option<u16>, AppError>)
        ensures
            r == Ok::<Option<u16>, AppError>(u16_var(self.vars(), "BootCurrent"@)),
    {
        Ok(self.read_u16_var("BootCurrent"))
    }

    /// The `BootNext` variable (one-shot next boot override).
    pub fn get_boot_next(&self) -> (r: Result<Option<u16>, AppError>)
        ensures
            r == Ok::<Option<u16>, AppError>(u16_var(self.vars(), "BootNext"@)),
    {
        Ok(self.read_u16_var("BootNext"))
    }

    fn read_u16_var(&self, name: &str) -> (r: Option<u16>)
        ensures
            r == u16_var(self.vars(), name@),
    {
        match self.store.read(name) {
            Ok(data) => {
                if data.len() >= 2 {
                    Some((data[0] as u16) + 256 * (data[1] as u16))
                } else {
                    None
                }
            },
            Err(_) => None,
        }
    }

    /// Writes a new boot entry and appends it to `BootOrder` unless it is
    /// already there (an unreadable order counts as empty).
    ///
    /// An option that efivar cannot encode is refused with a `Parse` error
    /// before anything is written.
    pub fn create_entry(&mut self, id: u16, entry: LoadOption) -> (r: Result<(), AppError>)
        ensures
            !load_option_encodable(entry@) ==> (r matches Err(AppError::Parse { message })
                && message@ == unencodable_text(id)) && final(self).vars() == old(self).vars(),
            r is Ok ==> load_option_encodable(entry@) && final(self).vars() == after_create(
                old(self).vars(),
                id,
                encoded_load_option(entry@),
            ),
            r is Err && load_option_encodable(entry@) ==> r matches Err(AppError::Efi { .. }),
            r is Err && load_option_encodable(entry@) ==> create_stopped(
                old(self).vars(),
                final(self).vars(),
                id,
                encoded_load_option(entry@),
            ),
            r is Ok && load_option_roundtrips(entry@) ==> entry_value(final(self).vars(), id)
                == Some(entry@),
            old(self).file_backed() && load_option_encodable(entry@) ==> r is Ok,
            final(self).file_backed() == old(self).file_backed(),
            final(self).deletes() == old(self).deletes(),
    {
        let bytes = match encode_load_option(&entry) {
            Some(b) => b,
            None => {
                return Err(AppError::Parse { message: unencodable_message(id) });
            },
        };
        proof {
            law_create_adds_to_order(self.vars(), id, bytes@);
        }
        let name = boot_var_name_of(id);
        match self.store.write(name.as_str(), bytes.as_slice()) {
            Ok(()) => {},
            Err(e) => {
                return Err(AppError::Efi { message: e });
            },
        }
        let mut order = self.boot_order_or_empty();
        if !contains_id(order.as_slice(), id) {
            order.push(id);
            match self.set_boot_order(order) {
                Ok(()) => {},
                Err(e) => {
                    return Err(e);
                },
            }
        }
        Ok(())
    }

    /// Deletes a boot entry and removes every occurrence of its ID from
    /// `BootOrder` (an unreadable order counts as empty).
    pub fn delete_entry(&mut self, id: u16) -> (r: Result<(), AppError>)
        ensures
            old(self).file_backed() && old(self).vars().contains_key(boot_var_name(id)) ==> r is Ok,
            r is Ok && deletes_exactly(old(self).file_backed(), old(self).vars(), id)
                ==> final(self).vars() == after_delete(old(self).vars(), id),
            r is Ok ==> final(self).vars().remove("BootOrder"@) == old(self).vars().remove(
                boot_var_name(id),
            ).remove("BootOrder"@),
            !old(self).deletes() ==> r matches Err(AppError::Efi { .. }),
            !old(self).deletes() ==> final(self).vars() == old(self).vars(),
            final(self).file_backed() == old(self).file_backed(),
            final(self).deletes() == old(self).deletes(),
            r matches Err(AppError::EntryNotFound { .. }) ==> final(self).vars() == old(
                self,
            ).vars(),
            r is Err ==> (r == Err::<(), AppError>(AppError::EntryNotFound { id })
                && final(self).vars() == old(self).vars()) || (r matches Err(AppError::Efi { .. })
                && (old(self).deletes() ==> final(self).vars().remove("BootOrder"@) == old(
                self,
            ).vars().remove(boot_var_name(id)).remove("BootOrder"@)) && (!old(self).deletes()
                ==> final(self).vars() == old(self).vars())),
    {
        if !self.store.can_delete() {
            return Err(
                AppError::Efi {
                    message: String::from_str(
                        "Deleting EFI variables is not supported by the efivars sysfs interface",
                    ),
                },
            );
        }
        let name = boot_var_name_of(id);
        match self.store.delete(name.as_str()) {
            Ok(()) => {},
            Err(_) => {
                return Err(AppError::EntryNotFound { id });
            },
        }
        let order = self.boot_order_or_empty();
        let kept = remove_id(order.as_slice(), id);
        self.set_boot_order(kept)
    }

    /// Overwrites an existing boot entry's variable with the encoded option.
    ///
    /// An option that efivar cannot encode is refused with a `Parse` error
    /// before anything is written.
    pub fn update_entry(&mut self, id: u16, entry: LoadOption) -> (r: Result<(), AppError>)
        ensures
            !load_option_encodable(entry@) ==> (r matches Err(AppError::Parse { message })
                && message@ == unencodable_text(id)) && final(self).vars() == old(self).vars(),
            r is Ok ==> load_option_encodable(entry@) && final(self).vars() == old(
                self,
            ).vars().insert(boot_var_name(id), encoded_load_option(entry@)),
            r is Err && load_option_encodable(entry@) ==> r matches Err(AppError::Efi { .. }),
            r is Err && load_option_encodable(entry@) ==> final(self).vars().remove(
                boot_var_name(id),
            ) == old(self).vars().remove(boot_var_name(id)),
            r is Ok && load_option_roundtrips(entry@) ==> entry_value(final(self).vars(), id)
                == Some(entry@),
            old(self).file_backed() && load_option_encodable(entry@) ==> r is Ok,
            final(self).file_backed() == old(self).file_backed(),
            final(self).deletes() == old(self).deletes(),
    {
        let bytes = match encode_load_option(&entry) {
            Some(b) => b,
            None => {
                return Err(AppError::Parse { message: unencodable_message(id) });
            },
        };
        let name = boot_var_name_of(id);
        match self.store.write(name.as_str(), bytes.as_slice()) {
            Ok(()) => Ok(()),
            Err(e) => Err(AppError::Efi { message: e }),
        }
    }

    /// Sets `BootOrder` to the given IDs.
    pub fn set_boot_order(&mut self, ids: Vec<u16>) -> (r: Result<(), AppError>)
        ensures
            old(self).file_backed() ==> r is Ok,
            r is Ok && (old(self).file_backed() || ids@.len() > 0) ==> final(self).vars() == old(
                self,
            ).vars().insert("BootOrder"@, u16_le_bytes(ids@)),
            final(self).file_backed() == old(self).file_backed(),
            final(self).deletes() == old(self).deletes(),
            r is Err ==> r matches Err(AppError::Efi { .. }),
            final(self).vars().remove("BootOrder"@) == old(self).vars().remove(
                "BootOrder"@,
            ),
    {
        let bytes = encode_u16_le(ids.as_slice());
        match self.store.write("BootOrder", bytes.as_slice()) {
            Ok(()) => Ok(()),
            Err(e) => Err(AppError::Efi { message: e }),
        }
    }

    /// Sets `BootNext` for a one-shot boot override.
    pub fn set_boot_next(&mut self, id: u16) -> (r: Result<(), AppError>)
        ensures
            r is Ok ==> final(self).vars() == old(self).vars().insert(
                "BootNext"@,
                u16_le_bytes(seq![id]),
            ),
            r is Err ==> r matches Err(AppError::Efi { .. }),
            old(self).file_backed() ==> r is Ok,
            final(self).vars().remove("BootNext"@) == old(self).vars().remove(
                "BootNext"@,
            ),
            final(self).file_backed() == old(self).file_backed(),
            final(self).deletes() == old(self).deletes(),
    {
        let one: Vec<u16> = vec![id];
        let bytes = encode_u16_le(one.as_slice());
        assert(one@ =~= seq![id]);
        match self.store.write("BootNext", bytes.as_slice()) {
            Ok(()) => Ok(()),
            Err(e) => Err(AppError::Efi { message: e }),
        }
    }

    /// Flips the `LOAD_OPTION_ACTIVE` flag of an entry and returns the new
    /// state.
    ///
    /// A missing entry is `EntryNotFound`; bytes that do not decode are a
    /// `Parse` error; an option that efivar cannot encode back is refused
    /// with a `Parse` error; none of these writes anything.
    pub fn toggle_active(&mut self, id: u16) -> (r: Result<bool, AppError>)
        ensures
            !old(self).vars().contains_key(boot_var_name(id)) ==> r == Err::<bool, AppError>(
                AppError::EntryNotFound { id },
            ),
            r is Err && !(r matches Err(AppError::Efi { .. })) ==> final(self).vars() == old(
                self,
            ).vars(),
            r matches Ok(a) ==> {
                &&& entry_decodes(old(self).vars(), id)
                &&& a == !is_active(decoded_entry(old(self).vars(), id).attributes)
                &&& load_option_encodable(toggled(decoded_entry(old(self).vars(), id)))
                &&& final(self).vars() == old(self).vars().insert(
                    boot_var_name(id),
                    encoded_load_option(toggled(decoded_entry(old(self).vars(), id))),
                )
            },
            old(self).vars().contains_key(boot_var_name(id)) && !load_option_framed(
                old(self).vars()[boot_var_name(id)],
            ) ==> (r matches Err(AppError::Parse { message }) && message@ == parse_failure_text(
                id,
                malformed_content_text(),
            )),
            old(self).vars().contains_key(boot_var_name(id)) && load_option_framed(
                old(self).vars()[boot_var_name(id)],
            ) ==> match decoded_load_option(old(self).vars()[boot_var_name(id)]) {
                Err(t) => r matches Err(AppError::Parse { message }) && message@
                    == parse_failure_text(id, t),
                Ok(v) => !load_option_encodable(toggled(v)) ==> (r matches Err(
                    AppError::Parse { message },
                ) && message@ == unencodable_text(id)),
            },
            r matches Err(AppError::Efi { .. }) ==> final(self).vars().remove(boot_var_name(id))
                == old(self).vars().remove(boot_var_name(id)),
            old(self).file_backed() && entry_decodes(old(self).vars(), id) && load_option_encodable(
                toggled(decoded_entry(old(self).vars(), id)),
            ) ==> r is Ok,
            final(self).file_backed() == old(self).file_backed(),
            final(self).deletes() == old(self).deletes(),
            r is Ok && load_option_roundtrips(toggled(decoded_entry(old(self).vars(), id)))
                ==> entry_value(final(self).vars(), id) == Some(
                toggled(decoded_entry(old(self).vars(), id)),
            ),
    {
        let name = boot_var_name_of(id);
        let data = match self.store.read(name.as_str()) {
            Ok(d) => d,
            Err(_) => {
                return Err(AppError::EntryNotFound { id });
            },
        };
        let mut option = match decode_load_option(data.as_slice()) {
            Ok(o) => o,
            Err(None) => {
                let reason = String::from_str("failed to parse variable content (invalid content)");
                return Err(AppError::Parse { message: parse_failure_message(id, reason.as_str()) });
            },
            Err(Some(t)) => {
                return Err(AppError::Parse { message: parse_failure_message(id, t.as_str()) });
            },
        };
        let new_active = option.attributes % 2 != 1;
        if new_active {
            option.attributes = option.attributes + 1;
        } else {
            option.attributes = option.attributes - 1;
        }
        let bytes = match encode_load_option(&option) {
            Some(b) => b,
            None => {
                return Err(AppError::Parse { message: unencodable_message(id) });
            },
        };
        match self.store.write(name.as_str(), bytes.as_slice()) {
            Ok(()) => Ok(new_active),
            Err(e) => Err(AppError::Efi { message: e }),
        }
    }

    /// The lowest ID that is neither in `BootOrder` (an unreadable order
    /// counts as empty) nor held by a `Boot####` variable.
    pub fn next_free_id(&self) -> (r: Result<u16, AppError>)
        ensures
            match r {
                Ok(id) => id_is_free(self.vars(), id) && forall|j: u16|
                    j < id ==> !id_is_free(self.vars(), j),
                Err(e) => (e matches AppError::Efi { message } && message@
                    == "No free boot entry IDs available"@) && forall|j: u16|
                    !id_is_free(self.vars(), j),
            },
            match r {
                Ok(id) => lowest_free_id(self.vars()) == Some(id),
                Err(_) => lowest_free_id(self.vars()) is None,
            },
    {
        let order = self.boot_order_or_empty();
        let mut id: u32 = 0;
        while id <= 0xFFFF
            invariant
                order@ == order_or_empty(self.vars()),
                id <= 0x10000,
                forall|j: u16| j < id ==> !id_is_free(self.vars(), j),
            decreases 0x10000 - id,
        {
            let candidate = id as u16;
            if !contains_id(order.as_slice(), candidate) {
                let name = boot_var_name_of(candidate);
                if self.store.read(name.as_str()).is_err() {
                    proof {
                        lemma_lowest_free_unique(self.vars(), candidate);
                    }
                    return Ok(candidate);
                }
            }
            id = id + 1;
        }
        assert(!exists|i: u16| is_lowest_free(self.vars(), i));
        Err(AppError::Efi { message: String::from_str("No free boot entry IDs available") })
    }

    /// The raw bytes of a variable, or `None` when it cannot be read.
    pub fn read_raw(&self, name: &str) -> (r: Result<Option<Vec<u8>>, AppError>)
        ensures
            r matches Ok(o) && match o {
                Some(d) => self.vars().contains_key(name@) && d@ == self.vars()[name@],
                None => !self.vars().contains_key(name@),
            },
    {
        match self.store.read(name) {
            Ok(data) => Ok(Some(data)),
            Err(_) => Ok(None),
        }
    }

    /// Writes the raw bytes of a variable.
    pub fn write_raw(&mut self, name: &str, data: &[u8]) -> (r: Result<(), AppError>)
        ensures
            old(self).file_backed() ==> r is Ok,
            r is Ok && (old(self).file_backed() || data@.len() > 0) ==> final(self).vars() == old(
                self,
            ).vars().insert(name@, data@),
            r is Err ==> r matches Err(AppError::Efi { .. }),
            final(self).vars().remove(name@) == old(self).vars().remove(name@),
            final(self).file_backed() == old(self).file_backed(),
            final(self).deletes() == old(self).deletes(),
    {
        match self.store.write(name, data) {
            Ok(()) => Ok(()),
            Err(e) => Err(AppError::Efi { message: e }),
        }
    }
}

/// `BootOrder`, `BootNext` and `BootCurrent` are UEFI little-endian UINT16
/// values: each value is written as two bytes, low byte first, and two
/// bytes `lo, hi` are read back as `lo + 256 * hi`.
pub proof fn law_u16_values_are_little_endian(ids: Seq<u16>, b: Seq<u8>, vars: Vars, name: Seq<char>)
    ensures
        u16_le_bytes(ids).len() == 2 * ids.len(),
        forall|k: int|
            0 <= k < ids.len() ==> #[trigger] u16_le_bytes(ids)[2 * k] == ids[k] % 256
                && u16_le_bytes(ids)[2 * k + 1] == ids[k] / 256,
        forall|k: int|
            0 <= k < ids.len() ==> u16_le_bytes(ids)[2 * k] + 256 * u16_le_bytes(ids)[2 * k + 1]
                == #[trigger] ids[k],
        u16_le_seq(b).len() == b.len() / 2,
        forall|k: int|
            0 <= k < b.len() / 2 ==> #[trigger] u16_le_seq(b)[k] == b[2 * k] + 256 * b[2 * k + 1],
        vars.contains_key(name) && vars[name].len() >= 2 ==> u16_var(vars, name) == Some(
            (vars[name][0] + 256 * vars[name][1]) as u16,
        ),
{
    assert forall|k: int| 0 <= k < ids.len() implies #[trigger] u16_le_bytes(ids)[2 * k] == ids[k]
        % 256 && u16_le_bytes(ids)[2 * k + 1] == ids[k] / 256 by {
        assert((2 * k) % 2 == 0 && (2 * k) / 2 == k);
        assert((2 * k + 1) % 2 == 1 && (2 * k + 1) / 2 == k);
    }
    assert forall|k: int| 0 <= k < ids.len() implies u16_le_bytes(ids)[2 * k] + 256 * u16_le_bytes(
        ids,
    )[2 * k + 1] == #[trigger] ids[k] by {
        assert((2 * k) % 2 == 0 && (2 * k) / 2 == k);
        assert((2 * k + 1) % 2 == 1 && (2 * k + 1) / 2 == k);
    }
    assert forall|k: int| 0 <= k < b.len() / 2 implies #[trigger] u16_le_seq(b)[k] == b[2 * k] + 256
        * b[2 * k + 1] by {
        assert(b[2 * k] as nat + 256 * (b[2 * k + 1] as nat) < 0x10000);
    }
}

} // verus!
