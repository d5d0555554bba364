//! Backup and restore of boot entries: raw variable values stored as base64
//! beside informational decoded fields.
use vstd::prelude::*;

use crate::boot::base64::{
    base64_bytes, base64_decode, base64_decode_error, base64_encode, base64_text, base64_valid,
    law_base64_roundtrip,
};
use crate::boot::entry::{describes, opt_text, BootEntryInfo};
use crate::boot::load_option::{
    decoded_load_option, guid_text, is_active, load_option_framed, LoadOptionView,
};
use crate::boot::manager::{
    boot_order_of, boot_var_name, boot_var_name_of, decoded_entry, entry_decodes, u16_le_bytes,
    law_boot_next_write_read, law_boot_order_write_read, lemma_boot_names_injective,
    lemma_names_differ, u16_var, BootManager, Vars,
};
use crate::error::{law_boot_id_text_roundtrip, parse_hex_u16, radix16_u16, AppError};
use crate::text::{decimal, format_decimal, format_hex4, hex4, push_str};

verus! {

/// The vendor GUID of EFI global variables.
pub const EFI_GLOBAL_VARIABLE_GUID: &'static str = "8be4df61-93ca-11d2-aa0d-00e098032b8c";

/// The backup format version.
pub const BACKUP_VERSION: u32 = 1;

/// Top-level backup structure serialized to JSON.
#[derive(Debug)]
pub struct BackupData {
    /// Backup format version.
    pub version: u32,
    /// ISO 8601 timestamp of when the backup was created.
    pub timestamp: String,
    /// BootOrder as a list of entry IDs.
    pub boot_order: Vec<u16>,
    /// BootNext value, if set.
    pub boot_next: Option<u16>,
    /// All boot entries.
    pub entries: Vec<BackupEntry>,
}

/// A single boot entry in the backup.
#[derive(Debug)]
pub struct BackupEntry {
    /// Hex ID (e.g., "0001").
    pub id: String,
    /// Full variable name (e.g., "Boot0001").
    pub variable_name: String,
    /// Vendor GUID.
    pub vendor_guid: String,
    /// Variable attribute flags.
    pub attributes: u32,
    /// Raw variable value as base64 — canonical for restore.
    pub raw_value_base64: String,
    /// Optional decoded metadata (informational only, ignored on restore).
    pub decoded: Option<DecodedMetadata>,
}

/// Human-readable decoded fields (informational only).
#[derive(Debug)]
pub struct DecodedMetadata {
    pub description: String,
    pub active: bool,
    pub file_path: Option<String>,
    pub partition_guid: Option<String>,
}

/// `e` is the backup entry that export makes of entry `id` whose variable
/// holds `raw`, decoded as `v`.
pub open spec fn exported_entry(e: BackupEntry, id: u16, raw: Seq<u8>, v: LoadOptionView) -> bool {
    &&& e.id@ == hex4(id)
    &&& e.variable_name@ == boot_var_name(id)
    &&& e.vendor_guid@ == EFI_GLOBAL_VARIABLE_GUID@
    &&& e.attributes == 7
    &&& e.raw_value_base64@ == base64_text(raw)
    &&& e.decoded matches Some(d) && {
        &&& d.description@ == v.description
        &&& d.active == is_active(v.attributes)
        &&& match v.file_path_list {
            Some((path, hd)) => opt_text(d.file_path, Some(path)) && opt_text(
                d.partition_guid,
                Some(guid_text(hd.partition_sig)),
            ),
            None => d.file_path is None && d.partition_guid is None,
        }
    }
}

/// `data` is a backup of the variables `vars` (all but its timestamp).
pub open spec fn is_export_of(data: BackupData, vars: Vars) -> bool {
    &&& boot_order_of(vars) is Some
    &&& data.version == BACKUP_VERSION
    &&& data.boot_order@ == boot_order_of(vars)->Some_0
    &&& data.boot_next == u16_var(vars, "BootNext"@)
    &&& data.entries@.len() == data.boot_order@.len()
    &&& forall|k: int|
        0 <= k < data.entries@.len() ==> entry_decodes(vars, data.boot_order@[k])
            && exported_entry(
            #[trigger] data.entries@[k],
            data.boot_order@[k],
            vars[boot_var_name(data.boot_order@[k])],
            decoded_entry(vars, data.boot_order@[k]),
        )
}

/// The seconds and nanoseconds since the Unix epoch, now; `None` when the
/// clock is set before the epoch.
///
/// Trusted: calls `SystemTime::now().duration_since(UNIX_EPOCH)` and splits
/// the duration with `as_secs` and `subsec_nanos`. Claimed only what std
/// documents of every outcome: the nanoseconds are below one billion. The
/// time itself is not known in advance.
#[verifier::external_body]
fn unix_time() -> (r: Option<(u64, u32)>)
    ensures
        r matches Some((_, n)) ==> n < 1_000_000_000,
{
    std::time::SystemTime::now().duration_since(std::time::UNIX_EPOCH).ok().map(|d| (d.as_secs(), d.subsec_nanos()))
}

/// What chrono's `DateTime::from_timestamp(secs, nanos)` followed by
/// `to_rfc3339` gives: the RFC 3339 text of that UTC time, or `None` when
/// the time is outside chrono's range.
pub uninterp spec fn rfc3339_text(secs: i64, nanos: u32) -> Option<Seq<char>>;

/// The RFC 3339 text of a UTC time given as seconds and nanoseconds since
/// the Unix epoch.
///
/// Trusted: calls `chrono::DateTime::from_timestamp(secs, nanos)` and, on
/// `Some`, `to_rfc3339` (which writes into a `String` and does not fail);
/// the result is named `rfc3339_text`.
#[verifier::external_body]
fn rfc3339_of(secs: i64, nanos: u32) -> (r: Option<String>)
    ensures
        match r {
            Some(t) => rfc3339_text(secs, nanos) == Some(t@),
            None => rfc3339_text(secs, nanos) is None,
        },
{
    chrono::DateTime::from_timestamp(secs, nanos).map(|t| t.to_rfc3339())
}

/// The current time as an RFC 3339 timestamp, or an empty text when the
/// clock cannot be read as a time after the Unix epoch that chrono can
/// represent.
fn current_timestamp() -> String {
    match unix_time() {
        Some((secs, nanos)) => {
            if secs <= 0x7fff_ffff_ffff_ffff {
                match rfc3339_of(secs as i64, nanos) {
                    Some(t) => t,
                    None => String::new(),
                }
            } else {
                String::new()
            }
        },
        None => String::new(),
    }
}

/// The backup entry of a decoded boot entry.
fn backup_entry_of(info: &BootEntryInfo, Ghost(v): Ghost<LoadOptionView>) -> (e: BackupEntry)
    requires
        info.description@ == v.description,
        info.active == is_active(v.attributes),
        match v.file_path_list {
            Some((path, hd)) => opt_text(info.file_path, Some(path)) && opt_text(
                info.partition_guid,
                Some(guid_text(hd.partition_sig)),
            ),
            None => info.file_path is None && info.partition_guid is None,
        },
    ensures
        exported_entry(e, info.id, info.raw_bytes@, v),
{
    let file_path = match &info.file_path {
        Some(p) => Some(p.clone()),
        None => None,
    };
    let partition_guid = match &info.partition_guid {
        Some(g) => Some(g.clone()),
        None => None,
    };
    BackupEntry {
        id: format_hex4(info.id),
        variable_name: boot_var_name_of(info.id),
        vendor_guid: String::from_str(EFI_GLOBAL_VARIABLE_GUID),
        attributes: 0x07,
        raw_value_base64: base64_encode(info.raw_bytes.as_slice()),
        decoded: Some(
            DecodedMetadata {
                description: info.description.clone(),
                active: info.active,
                file_path,
                partition_guid,
            },
        ),
    }
}

/// Exports all boot entries, `BootOrder` and `BootNext` as a backup.
///
/// Fails when `BootOrder` cannot be read or when an entry of it is missing
/// or does not decode; otherwise the backup holds every entry of the boot
/// order, in order, with its raw bytes.
pub fn export(mgr: &BootManager) -> (r: Result<BackupData, AppError>)
    ensures
        r matches Ok(data) ==> is_export_of(data, mgr.vars()),
        match boot_order_of(mgr.vars()) {
            None => r matches Err(AppError::Efi { .. }),
            Some(o) => (r is Err ==> exists|k: int|
                0 <= k < o.len() && !entry_decodes(mgr.vars(), #[trigger] o[k])) && ((forall|k: int|
                0 <= k < o.len() ==> entry_decodes(mgr.vars(), #[trigger] o[k])) ==> r is Ok),
        },
{
    let boot_order = mgr.get_boot_order()?;
    let boot_next = match mgr.get_boot_next() {
        Ok(n) => n,
        Err(e) => {
            return Err(e);
        },
    };
    let ghost vars = mgr.vars();
    let mut entries: Vec<BackupEntry> = Vec::new();
    let mut i: usize = 0;
    while i < boot_order.len()
        invariant
            vars == mgr.vars(),
            boot_order@ == boot_order_of(vars)->Some_0,
            boot_order_of(vars) is Some,
            i <= boot_order.len(),
            entries@.len() == i,
            forall|k: int| 0 <= k < i ==> entry_decodes(vars, #[trigger] boot_order@[k]),
            forall|k: int|
                0 <= k < i ==> exported_entry(
                    #[trigger] entries@[k],
                    boot_order@[k],
                    vars[boot_var_name(boot_order@[k])],
                    decoded_entry(vars, boot_order@[k]),
                ),
        decreases boot_order.len() - i,
    {
        let id = boot_order[i];
        let info = match mgr.get_entry(id) {
            Ok(info) => {
                assert(vars.contains_key(boot_var_name(id)));
                assert(load_option_framed(vars[boot_var_name(id)]));
                assert(decoded_load_option(vars[boot_var_name(id)]) is Ok);
                assert(entry_decodes(vars, id));
                assert(describes(info, id, vars[boot_var_name(id)], decoded_entry(vars, id)));
                info
            },
            Err(e) => {
                assert(!entry_decodes(vars, boot_order@[i as int]));
                return Err(e);
            },
        };
        let e = backup_entry_of(&info, Ghost(decoded_entry(vars, id)));
        assert(exported_entry(e, id, vars[boot_var_name(id)], decoded_entry(vars, id)));
        let ghost before = entries@;
        entries.push(e);
        assert(entries@ == before.push(e));
        i = i + 1;
    }
    Ok(
        BackupData {
            version: BACKUP_VERSION,
            timestamp: current_timestamp(),
            boot_order,
            boot_next,
            entries,
        },
    )
}

/// What is wrong with a backup entry, if anything: an ID that is not
/// hexadecimal, or a value that is not standard base64.
pub open spec fn entry_problem(e: BackupEntry) -> Option<Seq<char>> {
    if radix16_u16(e.id@) is None {
        Some("Invalid entry ID: "@ + e.id@)
    } else if !base64_valid(e.raw_value_base64@) {
        Some(
            "Invalid base64 for "@ + e.variable_name@ + ": "@ + base64_decode_error(
                e.raw_value_base64@,
            ),
        )
    } else {
        None
    }
}

/// The problem of the first entry that has one.
pub open spec fn first_entry_problem(es: Seq<BackupEntry>) -> Option<Seq<char>>
    decreases es.len(),
{
    if es.len() == 0 {
        None
    } else {
        match entry_problem(es[0]) {
            Some(m) => Some(m),
            None => first_entry_problem(es.skip(1)),
        }
    }
}

/// Some entry of the backup carries the four-digit ID of `id`.
pub open spec fn has_entry_for(es: Seq<BackupEntry>, id: u16) -> bool {
    exists|k: int| 0 <= k < es.len() && (#[trigger] es[k]).id@ == hex4(id)
}

/// The first ID of the boot order that no entry carries.
pub open spec fn first_missing_reference(order: Seq<u16>, es: Seq<BackupEntry>) -> Option<u16>
    decreases order.len(),
{
    if order.len() == 0 {
        None
    } else if !has_entry_for(es, order[0]) {
        Some(order[0])
    } else {
        first_missing_reference(order.skip(1), es)
    }
}

/// Why a backup cannot be applied, if it cannot: an unsupported version,
/// else the first bad entry, else the first boot order ID without entry
/// data.
pub open spec fn backup_problem(b: BackupData) -> Option<Seq<char>> {
    if b.version != BACKUP_VERSION {
        Some("Unsupported backup version "@ + decimal(b.version as nat) + " (expected 1)"@)
    } else {
        match first_entry_problem(b.entries@) {
            Some(m) => Some(m),
            None => match first_missing_reference(b.boot_order@, b.entries@) {
                Some(id) => Some(
                    "BootOrder references Boot"@ + hex4(id) + " but no entry data found"@,
                ),
                None => None,
            },
        }
    }
}

/// Validates a backup before it is applied.
pub fn validate(backup: &BackupData) -> (r: Result<(), AppError>)
    ensures
        match backup_problem(*backup) {
            None => r is Ok,
            Some(m) => r matches Err(AppError::Backup { message }) && message@ == m,
        },
{
    if backup.version != BACKUP_VERSION {
        let mut m = String::from_str("Unsupported backup version ");
        let v = format_decimal(backup.version as u128);
        push_str(&mut m, v.as_str());
        push_str(&mut m, " (expected 1)");
        return Err(AppError::Backup { message: m });
    }
    let ghost es = backup.entries@;
    let mut i: usize = 0;
    assert(es.skip(0) =~= es);
    while i < backup.entries.len()
        invariant
            es == backup.entries@,
            backup.version == BACKUP_VERSION,
            i <= es.len(),
            first_entry_problem(es) == first_entry_problem(es.skip(i as int)),
        decreases es.len() - i,
    {
        let entry = &backup.entries[i];
        proof {
            assert(es.skip(i as int).skip(1) =~= es.skip(i + 1));
            assert(es.skip(i as int)[0] == es[i as int]);
        }
        if parse_hex_u16(entry.id.as_str()).is_none() {
            let m = crate::text::concat("Invalid entry ID: ", entry.id.as_str());
            return Err(AppError::Backup { message: m });
        }
        match base64_decode(entry.raw_value_base64.as_str()) {
            Ok(_) => {},
            Err(err) => {
                let mut m = String::from_str("Invalid base64 for ");
                push_str(&mut m, entry.variable_name.as_str());
                push_str(&mut m, ": ");
                push_str(&mut m, err.as_str());
                return Err(AppError::Backup { message: m });
            },
        }
        i = i + 1;
    }
    assert(es.skip(es.len() as int) =~= Seq::<BackupEntry>::empty());
    let ghost order = backup.boot_order@;
    let mut j: usize = 0;
    assert(order.skip(0) =~= order);
    while j < backup.boot_order.len()
        invariant
            es == backup.entries@,
            backup.version == BACKUP_VERSION,
            first_entry_problem(es) is None,
            order == backup.boot_order@,
            j <= order.len(),
            first_missing_reference(order, es) == first_missing_reference(order.skip(j as int), es),
        decreases order.len() - j,
    {
        let id = backup.boot_order[j];
        proof {
            assert(order.skip(j as int).skip(1) =~= order.skip(j + 1));
            assert(order.skip(j as int)[0] == order[j as int]);
        }
        let id_str = format_hex4(id);
        let mut found = false;
        let mut k: usize = 0;
        while k < backup.entries.len()
            invariant
                es == backup.entries@,
                k <= es.len(),
                id_str@ == hex4(id),
                found ==> has_entry_for(es, id),
                !found ==> forall|q: int| 0 <= q < k ==> (#[trigger] es[q]).id@ != hex4(id),
            decreases es.len() - k,
        {
            if crate::text::same_text(backup.entries[k].id.as_str(), id_str.as_str()) {
                assert(es[k as int].id@ == hex4(id));
                found = true;
            }
            k = k + 1;
        }
        if !found {
            let mut m = String::from_str("BootOrder references Boot");
            push_str(&mut m, id_str.as_str());
            push_str(&mut m, " but no entry data found");
            return Err(AppError::Backup { message: m });
        }
        j = j + 1;
    }
    assert(order.skip(order.len() as int) =~= Seq::<u16>::empty());
    Ok(())
}

/// The variables after the backup entries are written, in order, each
/// under its variable name with the bytes its base64 value encodes.
pub open spec fn restored_entries(vars: Vars, es: Seq<BackupEntry>) -> Vars
    decreases es.len(),
{
    if es.len() == 0 {
        vars
    } else {
        restored_entries(vars, es.drop_last()).insert(
            es.last().variable_name@,
            base64_bytes(es.last().raw_value_base64@),
        )
    }
}

/// The variables after the entries of a backup and then its `BootNext`,
/// when it has one, are written.
pub open spec fn with_next(vars: Vars, b: BackupData) -> Vars {
    match b.boot_next {
        Some(n) => restored_entries(vars, b.entries@).insert("BootNext"@, u16_le_bytes(seq![n])),
        None => restored_entries(vars, b.entries@),
    }
}

/// The variables after a backup is restored: its entries, then `BootNext`
/// when the backup has one, then `BootOrder` last.
pub open spec fn restored(vars: Vars, b: BackupData) -> Vars {
    with_next(vars, b).insert("BootOrder"@, u16_le_bytes(b.boot_order@))
}

/// Every write of a restore of `b` says what the store then holds: the
/// store is the file store, or no write is of zero bytes (what a
/// zero-length write leaves in a firmware variable is not known).
pub open spec fn restores_exactly(file: bool, b: BackupData) -> bool {
    file || (b.boot_order@.len() > 0 && forall|k: int|
        0 <= k < b.entries@.len() ==> base64_bytes(
            (#[trigger] b.entries@[k]).raw_value_base64@,
        ).len() > 0)
}

/// A restore of `b` into `before` stopped at a failed write: the writes
/// before it were made in order, the failed one left its variable unknown,
/// and no later write was made.
pub open spec fn restore_stopped(before: Vars, after: Vars, b: BackupData) -> bool {
    ||| exists|k: int|
        0 <= k < b.entries@.len() && after.remove(b.entries@[k].variable_name@)
            == #[trigger] restored_entries(before, b.entries@.take(k)).remove(
            b.entries@[k].variable_name@,
        )
    ||| (b.boot_next is Some && after.remove("BootNext"@) == restored_entries(
        before,
        b.entries@,
    ).remove("BootNext"@))
    ||| after.remove("BootOrder"@) == with_next(before, b).remove("BootOrder"@)
}

/// Restores boot entries from a backup: validates it, writes every
/// `Boot####` variable from its raw bytes, then `BootNext` if the backup
/// has one, then `BootOrder` last, stopping at the first write that fails.
/// On the file store every write succeeds.
pub fn restore(mgr: &mut BootManager, backup: &BackupData) -> (r: Result<(), AppError>)
    ensures
        backup_problem(*backup) matches Some(m) ==> (r matches Err(AppError::Backup { message })
            && message@ == m) && final(mgr).vars() == old(mgr).vars(),
        r is Ok ==> backup_problem(*backup) is None,
        old(mgr).file_backed() && backup_problem(*backup) is None ==> r is Ok,
        r is Ok && restores_exactly(old(mgr).file_backed(), *backup) ==> final(mgr).vars()
            == restored(old(mgr).vars(), *backup),
        backup_problem(*backup) is None && r is Err ==> r matches Err(AppError::Efi { .. }),
        backup_problem(*backup) is None && r is Err && restores_exactly(
            old(mgr).file_backed(),
            *backup,
        ) ==> restore_stopped(old(mgr).vars(), final(mgr).vars(), *backup),
        final(mgr).file_backed() == old(mgr).file_backed(),
        final(mgr).deletes() == old(mgr).deletes(),
{
    validate(backup)?;
    let ghost es = backup.entries@;
    let ghost start = mgr.vars();
    let ghost file = mgr.file_backed();
    let ghost exact = restores_exactly(file, *backup);
    let mut i: usize = 0;
    proof {
        assert(es.skip(0) =~= es);
        assert(es.take(0) =~= Seq::<BackupEntry>::empty());
    }
    while i < backup.entries.len()
        invariant
            es == backup.entries@,
            i <= es.len(),
            backup_problem(*backup) is None,
            first_entry_problem(es.skip(i as int)) is None,
            exact ==> mgr.vars() == restored_entries(start, es.take(i as int)),
            exact == restores_exactly(file, *backup),
            mgr.file_backed() == file,
            file == old(mgr).file_backed(),
            start == old(mgr).vars(),
            mgr.deletes() == old(mgr).deletes(),
        decreases es.len() - i,
    {
        let entry = &backup.entries[i];
        proof {
            assert(es.skip(i as int).skip(1) =~= es.skip(i + 1));
            assert(es.skip(i as int)[0] == es[i as int]);
            assert(es.take(i + 1).drop_last() =~= es.take(i as int));
            assert(es.take(i + 1).last() == es[i as int]);
        }
        let raw = match base64_decode(entry.raw_value_base64.as_str()) {
            Ok(raw) => raw,
            Err(err) => {
                proof {
                    let b = choose|b: Seq<u8>| entry.raw_value_base64@ == #[trigger] base64_text(b);
                    assert(entry.raw_value_base64@ == base64_text(b));
                }
                let mut m = String::from_str("Failed to decode base64 for ");
                push_str(&mut m, entry.variable_name.as_str());
                push_str(&mut m, ": ");
                push_str(&mut m, err.as_str());
                return Err(AppError::Backup { message: m });
            },
        };
        proof {
            assert(entry.raw_value_base64@ == base64_text(raw@));
            assert(base64_valid(entry.raw_value_base64@));
            crate::boot::base64::law_base64_injective(
                raw@,
                base64_bytes(entry.raw_value_base64@),
            );
            if exact && !file {
                assert(base64_bytes(es[i as int].raw_value_base64@).len() > 0);
            }
        }
        match mgr.write_raw(entry.variable_name.as_str(), raw.as_slice()) {
            Ok(()) => {},
            Err(e) => {
                assert(exact ==> restore_stopped(start, mgr.vars(), *backup)) by {
                    if exact {
                        assert(restored_entries(start, es.take(i as int)).remove(
                            es[i as int].variable_name@,
                        ) == mgr.vars().remove(es[i as int].variable_name@));
                    }
                }
                return Err(e);
            },
        }
        i = i + 1;
    }
    assert(es.take(es.len() as int) =~= es);
    match backup.boot_next {
        Some(next) => {
            match mgr.set_boot_next(next) {
                Ok(()) => {},
                Err(e) => {
                    return Err(e);
                },
            }
        },
        None => {},
    }
    mgr.set_boot_order(backup.boot_order.clone())
}

proof fn lemma_no_entry_problem(es: Seq<BackupEntry>)
    requires
        forall|k: int| 0 <= k < es.len() ==> entry_problem(#[trigger] es[k]) is None,
    ensures
        first_entry_problem(es) is None,
    decreases es.len(),
{
    if es.len() > 0 {
        assert(entry_problem(es[0]) is None);
        assert forall|k: int| 0 <= k < es.skip(1).len() implies entry_problem(
            #[trigger] es.skip(1)[k],
        ) is None by {
            assert(es.skip(1)[k] == es[k + 1]);
        }
        lemma_no_entry_problem(es.skip(1));
    }
}

proof fn lemma_no_missing_reference(order: Seq<u16>, es: Seq<BackupEntry>)
    requires
        forall|k: int| 0 <= k < order.len() ==> has_entry_for(es, #[trigger] order[k]),
    ensures
        first_missing_reference(order, es) is None,
    decreases order.len(),
{
    if order.len() > 0 {
        assert(has_entry_for(es, order[0]));
        assert forall|k: int| 0 <= k < order.skip(1).len() implies has_entry_for(
            es,
            #[trigger] order.skip(1)[k],
        ) by {
            assert(order.skip(1)[k] == order[k + 1]);
        }
        lemma_no_missing_reference(order.skip(1), es);
    }
}

/// A backup that export makes passes validation.
pub proof fn law_export_validates(data: BackupData, vars: Vars)
    requires
        is_export_of(data, vars),
    ensures
        backup_problem(data) is None,
{
    let es = data.entries@;
    let order = data.boot_order@;
    assert forall|k: int| 0 <= k < es.len() implies entry_problem(#[trigger] es[k]) is None by {
        law_boot_id_text_roundtrip(order[k]);
        law_base64_roundtrip(vars[boot_var_name(order[k])]);
    }
    lemma_no_entry_problem(es);
    assert forall|k: int| 0 <= k < order.len() implies has_entry_for(es, #[trigger] order[k]) by {
        assert(es[k].id@ == hex4(order[k]));
    }
    lemma_no_missing_reference(order, es);
}

proof fn lemma_restored_entries(
    v: Vars,
    es: Seq<BackupEntry>,
    ids: Seq<u16>,
    vars: Vars,
)
    requires
        es.len() == ids.len(),
        forall|k: int|
            0 <= k < es.len() ==> (#[trigger] es[k]).variable_name@ == boot_var_name(ids[k])
                && base64_bytes(es[k].raw_value_base64@) == vars[boot_var_name(ids[k])],
    ensures
        forall|k: int|
            0 <= k < ids.len() ==> restored_entries(v, es).contains_key(
                boot_var_name(#[trigger] ids[k]),
            ) && restored_entries(v, es)[boot_var_name(ids[k])] == vars[boot_var_name(ids[k])],
        forall|n: Seq<char>|
            (forall|k: int| 0 <= k < ids.len() ==> n != boot_var_name(#[trigger] ids[k]))
                ==> #[trigger] restored_entries(v, es).contains_key(n) == v.contains_key(n)
                && (v.contains_key(n) ==> restored_entries(v, es)[n] == v[n]),
    decreases es.len(),
{
    if es.len() > 0 {
        let m = es.len() - 1;
        let es0 = es.drop_last();
        let ids0 = ids.drop_last();
        assert forall|k: int| 0 <= k < es0.len() implies (#[trigger] es0[k]).variable_name@
            == boot_var_name(ids0[k]) && base64_bytes(es0[k].raw_value_base64@) == vars[boot_var_name(
            ids0[k],
        )] by {
            assert(es0[k] == es[k]);
            assert(ids0[k] == ids[k]);
        }
        lemma_restored_entries(v, es0, ids0, vars);
        let r0 = restored_entries(v, es0);
        let name = es[m].variable_name@;
        let data = base64_bytes(es[m].raw_value_base64@);
        assert(name == boot_var_name(ids[m]) && data == vars[boot_var_name(ids[m])]);
        assert(es.drop_last() == es0 && es.last() == es[m]);
        assert(restored_entries(v, es) == r0.insert(name, data));
        let r = r0.insert(name, data);
        assert forall|k: int| 0 <= k < ids.len() implies r.contains_key(
            boot_var_name(#[trigger] ids[k]),
        ) && r[boot_var_name(ids[k])] == vars[boot_var_name(ids[k])] by {
            if k < m {
                assert(ids0[k] == ids[k]);
            }
        }
        assert forall|n: Seq<char>|
            (forall|k: int| 0 <= k < ids.len() ==> n != boot_var_name(#[trigger] ids[k]))
                implies #[trigger] r.contains_key(n) == v.contains_key(n) && (v.contains_key(n)
            ==> r[n] == v[n]) by {
            assert(n != boot_var_name(ids[m]));
            assert forall|k: int| 0 <= k < ids0.len() implies n != boot_var_name(
                #[trigger] ids0[k],
            ) by {
                assert(ids0[k] == ids[k]);
            }
        }
    }
}

proof fn lemma_special_names_differ()
    ensures
        "BootOrder"@ != "BootNext"@,
{
    reveal_strlit("BootOrder");
    reveal_strlit("BootNext");
    assert("BootOrder"@.len() != "BootNext"@.len());
}

/// Restoring a backup leaves its boot order in `BootOrder` and, when it
/// has one, its `BootNext`.
pub proof fn law_restore_sets_order_and_next(vars: Vars, b: BackupData)
    ensures
        boot_order_of(restored(vars, b)) == Some(b.boot_order@),
        b.boot_next matches Some(n) ==> u16_var(restored(vars, b), "BootNext"@) == Some(n),
{
    let v1 = with_next(vars, b);
    law_boot_order_write_read(v1, b.boot_order@);
    lemma_special_names_differ();
    if let Some(n) = b.boot_next {
        law_boot_next_write_read(restored_entries(vars, b.entries@), n);
        assert(restored(vars, b)["BootNext"@] == v1["BootNext"@]);
    }
}

/// Backups are lossless: restoring what export made of a store, into any
/// store, reproduces its boot order, the raw bytes of every entry in it,
/// and its `BootNext` when it had one.
pub proof fn law_export_restore_roundtrip(data: BackupData, vars: Vars, target: Vars)
    requires
        is_export_of(data, vars),
    ensures
        boot_order_of(restored(target, data)) == boot_order_of(vars),
        forall|k: int|
            0 <= k < data.boot_order@.len() ==> restored(target, data).contains_key(
                boot_var_name(#[trigger] data.boot_order@[k]),
            ) && restored(target, data)[boot_var_name(data.boot_order@[k])]
                == vars[boot_var_name(data.boot_order@[k])],
        u16_var(vars, "BootNext"@) matches Some(n) ==> u16_var(restored(target, data), "BootNext"@)
            == Some(n),
{
    let es = data.entries@;
    let ids = data.boot_order@;
    assert forall|k: int| 0 <= k < es.len() implies (#[trigger] es[k]).variable_name@
        == boot_var_name(ids[k]) && base64_bytes(es[k].raw_value_base64@) == vars[boot_var_name(
        ids[k],
    )] by {
        law_base64_roundtrip(vars[boot_var_name(ids[k])]);
    }
    lemma_restored_entries(target, es, ids, vars);
    law_restore_sets_order_and_next(target, data);
    lemma_special_names_differ();
    assert forall|k: int| 0 <= k < ids.len() implies restored(target, data).contains_key(
        boot_var_name(#[trigger] ids[k]),
    ) && restored(target, data)[boot_var_name(ids[k])] == vars[boot_var_name(ids[k])] by {
        lemma_names_differ(ids[k]);
    }
}

/// The two backup entries differ at most in their decoded metadata.
pub open spec fn same_raw_entry(a: BackupEntry, b: BackupEntry) -> bool {
    &&& a.id@ == b.id@
    &&& a.variable_name@ == b.variable_name@
    &&& a.vendor_guid@ == b.vendor_guid@
    &&& a.attributes == b.attributes
    &&& a.raw_value_base64@ == b.raw_value_base64@
}

/// The two backups differ at most in their timestamps and in the decoded
/// metadata of their entries.
pub open spec fn same_raw_backup(a: BackupData, b: BackupData) -> bool {
    &&& a.version == b.version
    &&& a.boot_order@ == b.boot_order@
    &&& a.boot_next == b.boot_next
    &&& a.entries@.len() == b.entries@.len()
    &&& forall|k: int|
        0 <= k < a.entries@.len() ==> same_raw_entry(#[trigger] a.entries@[k], b.entries@[k])
}

proof fn lemma_same_raw_entries_skip(a: Seq<BackupEntry>, b: Seq<BackupEntry>)
    requires
        a.len() == b.len(),
        a.len() > 0,
        forall|k: int| 0 <= k < a.len() ==> same_raw_entry(#[trigger] a[k], b[k]),
    ensures
        forall|k: int|
            0 <= k < a.skip(1).len() ==> same_raw_entry(#[trigger] a.skip(1)[k], b.skip(1)[k]),
{
    assert forall|k: int| 0 <= k < a.skip(1).len() implies same_raw_entry(
        #[trigger] a.skip(1)[k],
        b.skip(1)[k],
    ) by {
        assert(a.skip(1)[k] == a[k + 1]);
        assert(b.skip(1)[k] == b[k + 1]);
    }
}

proof fn lemma_same_raw_validation(a: Seq<BackupEntry>, b: Seq<BackupEntry>, order: Seq<u16>)
    requires
        a.len() == b.len(),
        forall|k: int| 0 <= k < a.len() ==> same_raw_entry(#[trigger] a[k], b[k]),
    ensures
        first_entry_problem(a) == first_entry_problem(b),
        first_missing_reference(order, a) == first_missing_reference(order, b),
    decreases a.len() + order.len(),
{
    if a.len() > 0 {
        assert(same_raw_entry(a[0], b[0]));
        lemma_same_raw_entries_skip(a, b);
        lemma_same_raw_validation(a.skip(1), b.skip(1), Seq::empty());
    }
    if order.len() > 0 {
        assert(has_entry_for(a, order[0]) == has_entry_for(b, order[0])) by {
            if has_entry_for(a, order[0]) {
                let k = choose|k: int| 0 <= k < a.len() && (#[trigger] a[k]).id@ == hex4(order[0]);
                assert(same_raw_entry(a[k], b[k]));
                assert(b[k].id@ == hex4(order[0]));
            }
            if has_entry_for(b, order[0]) {
                let k = choose|k: int| 0 <= k < b.len() && (#[trigger] b[k]).id@ == hex4(order[0]);
                assert(same_raw_entry(a[k], b[k]));
                assert(a[k].id@ == hex4(order[0]));
            }
        }
        lemma_same_raw_validation(a, b, order.skip(1));
    }
}

proof fn lemma_same_raw_restored_entries(
    vars: Vars,
    a: Seq<BackupEntry>,
    b: Seq<BackupEntry>,
)
    requires
        a.len() == b.len(),
        forall|k: int| 0 <= k < a.len() ==> same_raw_entry(#[trigger] a[k], b[k]),
    ensures
        restored_entries(vars, a) == restored_entries(vars, b),
    decreases a.len(),
{
    if a.len() > 0 {
        assert(same_raw_entry(a[a.len() - 1], b[b.len() - 1]));
        assert forall|k: int| 0 <= k < a.drop_last().len() implies same_raw_entry(
            #[trigger] a.drop_last()[k],
            b.drop_last()[k],
        ) by {
            assert(a.drop_last()[k] == a[k]);
            assert(b.drop_last()[k] == b[k]);
        }
        lemma_same_raw_restored_entries(vars, a.drop_last(), b.drop_last());
    }
}

/// Restoring goes by the raw values alone: two backups that differ only in
/// their timestamps and in the decoded fields of their entries are refused
/// for the same reason or restore to the same variables.
pub proof fn law_restore_ignores_decoded(vars: Vars, a: BackupData, b: BackupData)
    requires
        same_raw_backup(a, b),
    ensures
        backup_problem(a) == backup_problem(b),
        restored(vars, a) == restored(vars, b),
{
    lemma_same_raw_validation(a.entries@, b.entries@, a.boot_order@);
    lemma_same_raw_restored_entries(vars, a.entries@, b.entries@);
}

} // verus!
