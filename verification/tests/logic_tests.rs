use std::str::FromStr;

use uefibootmgrrs::boot::backup::{export, restore, validate, BackupData, BackupEntry};
use uefibootmgrrs::boot::load_option::{
    decode_load_option, encode_load_option, DevicePathList, DriveSignatureType, HardDrive,
    LoadOption,
};
use uefibootmgrrs::boot::manager::BootManager;
use uefibootmgrrs::boot::store::VarStore;
use uefibootmgrrs::cli::backup_cmds::{auto_backup_path, backup_lines, format_debug_ids, restore_summary};
use uefibootmgrrs::cli::create;
use uefibootmgrrs::cli::entry_cmds::hex_preview;
use uefibootmgrrs::cli::esp_cmds::flag_lines;
use uefibootmgrrs::cli::order::{self, split_commas_exec};
use uefibootmgrrs::text::trim_space_exec;
use uefibootmgrrs::error::{parse_boot_id, parse_hex_u16, AppError};
use uefibootmgrrs::text::{format_hex4, parse_u32, pop_char, trim_char_exec};
use uefibootmgrrs::tui::app::{App, ConfirmAction, FormField, View};
use uefibootmgrrs::tui::keys::{handle_key, Key, KeyCode, KeyEffect};
use uuid::Uuid;

fn sample_entry(desc: &str, loader: &str) -> LoadOption {
    LoadOption {
        attributes: 1,
        description: desc.to_string(),
        file_path_list: Some(DevicePathList {
            file_path: loader.to_string(),
            hard_drive: HardDrive {
                partition_number: 1,
                partition_start: 2048,
                partition_size: 1024000,
                partition_sig: Uuid::from_str("90364bbd-1000-47fc-8c05-8707e01b4593")
                    .unwrap()
                    .as_u128(),
                format: 0x02,
                sig_type: DriveSignatureType::Gpt,
            },
        }),
        optional_data: Vec::new(),
    }
}

fn setup_mgr(name: &str) -> BootManager {
    let store = VarStore::file(&format!("/tmp/uefibootmgrrs-logic-{name}.toml"));
    let mut mgr = BootManager::new(store);
    for id in [0u16, 1, 2, 3] {
        let _ = mgr.delete_entry(id);
    }
    let e0 = sample_entry("Windows", r"\EFI\Microsoft\Boot\bootmgfw.efi");
    let e1 = sample_entry("Ubuntu", r"\EFI\ubuntu\shimx64.efi");
    mgr.write_raw("Boot0000", &encode_load_option(&e0).unwrap()).unwrap();
    mgr.write_raw("Boot0001", &encode_load_option(&e1).unwrap()).unwrap();
    mgr.set_boot_order(vec![0, 1]).unwrap();
    mgr
}

fn setup_app(name: &str) -> App {
    let mut app = App::new(setup_mgr(name));
    app.refresh_entries();
    app
}

fn key(code: KeyCode) -> Key {
    Key { code, ctrl: false }
}

fn ch(c: char) -> Key {
    key(KeyCode::Char(c))
}

#[test]
fn keys_navigate_the_entry_list() {
    let mut app = setup_app("keys-nav");
    handle_key(&mut app, key(KeyCode::Down));
    assert_eq!(app.selected, 1);
    handle_key(&mut app, ch('j'));
    assert_eq!(app.selected, 1);
    handle_key(&mut app, ch('k'));
    assert_eq!(app.selected, 0);
    handle_key(&mut app, key(KeyCode::Up));
    assert_eq!(app.selected, 0);
    handle_key(&mut app, key(KeyCode::End));
    assert_eq!(app.selected, 1);
    handle_key(&mut app, key(KeyCode::Home));
    assert_eq!(app.selected, 0);
    handle_key(&mut app, key(KeyCode::Enter));
    assert_eq!(app.view, View::EntryDetail);
    handle_key(&mut app, ch('q'));
    assert_eq!(app.view, View::EntryList);
    assert!(!app.should_quit);
    handle_key(&mut app, ch('?'));
    assert_eq!(app.view, View::Help);
    handle_key(&mut app, key(KeyCode::Esc));
    assert_eq!(app.view, View::EntryList);
    handle_key(&mut app, ch('q'));
    assert!(app.should_quit);
}

#[test]
fn ctrl_c_quits_from_any_view() {
    let mut app = setup_app("keys-ctrl-c");
    app.open_create_form();
    let effect = handle_key(&mut app, Key { code: KeyCode::Char('c'), ctrl: true });
    assert!(matches!(effect, KeyEffect::Nothing));
    assert!(app.should_quit);
    assert!(app.form_description.is_empty());
}

#[test]
fn keys_edit_and_submit_the_form() {
    let mut app = setup_app("keys-form");
    handle_key(&mut app, ch('n'));
    assert_eq!(app.view, View::EntryForm);
    for c in "Fedorax".chars() {
        handle_key(&mut app, ch(c));
    }
    handle_key(&mut app, key(KeyCode::Backspace));
    assert_eq!(app.form_description, "Fedora");
    handle_key(&mut app, key(KeyCode::Enter));
    assert_eq!(app.form_field, FormField::Loader);
    for c in r"\EFI\fedora\shimx64.efi".chars() {
        handle_key(&mut app, ch(c));
    }
    handle_key(&mut app, key(KeyCode::BackTab));
    assert_eq!(app.form_field, FormField::Description);
    handle_key(&mut app, key(KeyCode::Tab));
    handle_key(&mut app, key(KeyCode::Tab));
    assert_eq!(app.form_field, FormField::Partition);
    handle_key(&mut app, key(KeyCode::Enter));
    assert_eq!(app.view, View::EntryList);
    assert_eq!(app.entries.len(), 3);
    assert_eq!(app.entries[2].description, "Fedora");
    assert_eq!(app.status_message.as_deref(), Some("Created Boot0002: Fedora"));
}

#[test]
fn empty_form_is_refused() {
    let mut app = setup_app("keys-empty-form");
    app.open_create_form();
    app.submit_form();
    assert!(app.status_is_error);
    assert_eq!(app.status_message.as_deref(), Some("Description and loader path are required"));
    assert_eq!(app.entries.len(), 2);
}

#[test]
fn bad_partition_guid_is_refused() {
    let mut app = setup_app("keys-bad-guid");
    app.open_create_form();
    app.form_description = "X".to_string();
    app.form_loader = r"\EFI\x.efi".to_string();
    app.form_partition = "not-a-guid".to_string();
    app.submit_form();
    assert!(app.status_is_error);
    assert!(app.status_message.as_deref().unwrap().starts_with("Invalid partition GUID: "));
    assert_eq!(app.entries.len(), 2);
}

#[test]
fn edit_without_changes_says_so() {
    let mut app = setup_app("keys-no-change");
    app.open_edit_form();
    app.submit_form();
    assert_eq!(app.status_message.as_deref(), Some("No changes"));
}

#[test]
fn keys_confirm_a_delete() {
    let mut app = setup_app("keys-delete");
    handle_key(&mut app, ch('d'));
    assert_eq!(app.view, View::Confirm);
    let c = app.confirm.as_ref().unwrap();
    assert_eq!(c.message, "Delete Boot0000 (Windows)?");
    assert!(matches!(c.action, ConfirmAction::DeleteEntry(0)));
    handle_key(&mut app, ch('x'));
    assert_eq!(app.view, View::Confirm);
    let effect = handle_key(&mut app, ch('y'));
    assert!(matches!(effect, KeyEffect::Nothing));
    assert_eq!(app.entries.len(), 1);
    assert_eq!(app.status_message.as_deref(), Some("Deleted Boot0000"));
    assert_eq!(app.mgr.get_boot_order().unwrap(), vec![1]);
}

#[test]
fn keys_reorder_and_toggle() {
    let mut app = setup_app("keys-reorder");
    handle_key(&mut app, ch('o'));
    assert!(app.reorder_mode);
    handle_key(&mut app, key(KeyCode::Down));
    assert_eq!(app.selected, 1);
    assert_eq!(app.boot_order, vec![1, 0]);
    assert_eq!(app.status_message.as_deref(), Some("Boot order updated"));
    handle_key(&mut app, key(KeyCode::Up));
    assert_eq!(app.boot_order, vec![0, 1]);
    handle_key(&mut app, key(KeyCode::Esc));
    assert!(!app.reorder_mode);
    assert_eq!(app.status_message.as_deref(), Some("Reorder mode off"));
    handle_key(&mut app, ch(' '));
    assert_eq!(app.status_message.as_deref(), Some("Boot0000 disabled"));
    assert!(!app.entries[0].active);
    handle_key(&mut app, ch(' '));
    assert_eq!(app.status_message.as_deref(), Some("Boot0000 enabled"));
    handle_key(&mut app, ch('R'));
    assert_eq!(app.status_message.as_deref(), Some("Refreshed"));
}

#[test]
fn keys_drive_backup_and_restore() {
    let mut app = setup_app("keys-backup");
    handle_key(&mut app, ch('b'));
    assert_eq!(app.view, View::BackupRestore);
    assert_eq!(app.backup_path, "backup.json");
    handle_key(&mut app, key(KeyCode::Backspace));
    handle_key(&mut app, ch('X'));
    assert_eq!(app.backup_path, "backup.jsoX");
    let effect = handle_key(&mut app, key(KeyCode::Enter));
    match effect {
        KeyEffect::WriteBackup(data) => assert_eq!(data.entries.len(), 2),
        other => panic!("unexpected {other:?}"),
    }
    assert_eq!(app.view, View::EntryList);

    handle_key(&mut app, ch('r'));
    let effect = handle_key(&mut app, key(KeyCode::Enter));
    assert!(matches!(effect, KeyEffect::Nothing));
    assert_eq!(app.view, View::Confirm);
    assert_eq!(
        app.confirm.as_ref().unwrap().message,
        "Restore from 'backup.json'? This will overwrite existing entries."
    );
    match handle_key(&mut app, key(KeyCode::Enter)) {
        KeyEffect::LoadBackup(path) => assert_eq!(path, "backup.json"),
        other => panic!("unexpected {other:?}"),
    }
    app.finish_backup(2, Err(uefibootmgrrs::tui::app::BackupWriteError::Write("disk full".to_string())));
    assert_eq!(app.status_message.as_deref(), Some("Write failed: disk full"));
    app.restore_loaded("b.json", Err(uefibootmgrrs::tui::app::BackupLoadError::Read("gone".to_string())));
    assert_eq!(app.status_message.as_deref(), Some("Read failed: gone"));
}

#[test]
fn restoring_a_loaded_backup() {
    let src = setup_mgr("restore-loaded-src");
    let data = export(&src).unwrap();
    let mut app = setup_app("restore-loaded");
    app.mgr.delete_entry(1).unwrap();
    app.refresh_entries();
    assert_eq!(app.entries.len(), 1);
    app.restore_loaded("b.json", Ok(data));
    assert_eq!(app.status_message.as_deref(), Some("Restored 2 entries from 'b.json'"));
    assert_eq!(app.entries.len(), 2);
    let bad = BackupData {
        version: 2,
        timestamp: String::new(),
        boot_order: vec![],
        boot_next: None,
        entries: vec![],
    };
    app.restore_loaded("b.json", Ok(bad));
    assert_eq!(
        app.status_message.as_deref(),
        Some("Validation failed: Backup/restore error: Unsupported backup version 2 (expected 1)")
    );
}

#[test]
fn keys_use_the_wizard() {
    let mut app = setup_app("keys-wizard");
    handle_key(&mut app, ch('w'));
    assert_eq!(app.view, View::Wizard);
    handle_key(&mut app, ch('k'));
    assert_eq!(app.wizard_selected, 0);
    for _ in 0..20 {
        handle_key(&mut app, ch('j'));
    }
    assert_eq!(app.wizard_selected, app.wizard_templates.len() - 1);
    handle_key(&mut app, key(KeyCode::Up));
    handle_key(&mut app, key(KeyCode::Enter));
    assert_eq!(app.view, View::EntryForm);
    assert_eq!(app.form_description, "openSUSE");
    assert_eq!(app.form_loader, r"\EFI\opensuse\shimx64.efi");
}

#[test]
fn order_trims_pieces_and_prints_the_order() {
    let mut mgr = setup_mgr("order-trim");
    let lines = order::run(&mut mgr, " 0001 ,\t0000").unwrap();
    assert_eq!(lines, vec!["Boot order set to: 0001, 0000".to_string()]);
    assert_eq!(mgr.get_boot_order().unwrap(), vec![1, 0]);
    match order::run(&mut mgr, "0000,,0001") {
        Err(AppError::InvalidEntryId { input }) => assert_eq!(input, ""),
        other => panic!("unexpected {other:?}"),
    }
    match order::run(&mut mgr, "0000, zz ,xx") {
        Err(AppError::InvalidEntryId { input }) => assert_eq!(input, "zz"),
        other => panic!("unexpected {other:?}"),
    }
    assert_eq!(mgr.get_boot_order().unwrap(), vec![1, 0]);
}

#[test]
fn printed_order_reads_back() {
    let mut mgr = setup_mgr("order-roundtrip");
    let lines = order::run(&mut mgr, "1,0,a,FFFF").unwrap();
    let printed = lines[0].trim_start_matches("Boot order set to: ").to_string();
    assert_eq!(printed, "0001, 0000, 000A, FFFF");
    order::run(&mut mgr, &printed).unwrap();
    assert_eq!(mgr.get_boot_order().unwrap(), vec![1, 0, 0x0A, 0xFFFF]);
}

#[test]
fn text_helpers_match_std() {
    let samples = [
        "", " ", "a", " a ", "\t\n x y \u{3000}", "a,b", ",", ",,a,", "\u{85}z\u{A0}", "{{g}}", "{x", "x}",
    ];
    for s in samples {
        assert_eq!(trim_space_exec(s), s.trim(), "trim {s:?}");
        let pieces: Vec<String> = s.split(',').map(String::from).collect();
        assert_eq!(split_commas_exec(s), pieces, "split {s:?}");
        assert_eq!(trim_char_exec(s, '{'), s.trim_matches('{'), "trim_matches {s:?}");
        let mut t = s.to_string();
        let expected_last = t.clone().pop();
        let mut expected_rest = t.clone();
        expected_rest.pop();
        assert_eq!(pop_char(&mut t), expected_last);
        assert_eq!(t, expected_rest);
    }
    for s in ["0", "+7", "42", "-1", "", "+", "4294967295", "4294967296", "12a", " 1", "007"] {
        assert_eq!(parse_u32(s), s.parse::<u32>().ok(), "parse {s:?}");
    }
    for s in ["0", "+f", "FFFF", "10000", "", "+", "g", "-1", "0x1"] {
        assert_eq!(parse_hex_u16(s), u16::from_str_radix(s, 16).ok(), "radix {s:?}");
    }
}

#[test]
fn boot_ids_read_back_from_their_text() {
    for id in [0u16, 1, 0x0A, 0x1234, 0xFFFF] {
        let text = format_hex4(id);
        assert_eq!(text, format!("{id:04X}"));
        assert_eq!(parse_boot_id(&text).unwrap(), id);
    }
    assert_eq!(parse_boot_id("0x0x1").unwrap(), 1);
    assert_eq!(parse_boot_id("0X1f").unwrap(), 0x1F);
    match parse_boot_id("10000") {
        Err(AppError::InvalidEntryId { input }) => assert_eq!(input, "10000"),
        other => panic!("unexpected {other:?}"),
    }
}

#[test]
fn hex_preview_values() {
    assert_eq!(hex_preview(&[], 64), "");
    assert_eq!(hex_preview(&[0x01, 0xab, 0xff], 64), "01 ab ff");
    assert_eq!(hex_preview(&[0x01, 0xab, 0xff], 2), "01 ab ...");
    assert_eq!(hex_preview(&[0x01], 0), " ...");
}

#[test]
fn error_messages() {
    let cases = vec![
        (AppError::Efi { message: "m".to_string() }, "EFI variable error: m"),
        (AppError::Privilege { message: "m".to_string() }, "Insufficient privileges: m"),
        (AppError::EntryNotFound { id: 0x2A }, "Boot entry not found: Boot002A"),
        (AppError::InvalidEntryId { input: "zz".to_string() }, "Invalid boot entry ID: zz"),
        (AppError::Backup { message: "m".to_string() }, "Backup/restore error: m"),
        (AppError::Parse { message: "m".to_string() }, "Parse error: m"),
        (AppError::Io { message: "io".to_string() }, "io"),
        (AppError::Json { message: "js".to_string() }, "js"),
    ];
    for (e, text) in cases {
        assert_eq!(e.message(), text);
    }
}

#[test]
fn create_reports_lines_and_errors() {
    let mut mgr = setup_mgr("create-lines");
    let lines = create::run(&mut mgr, "Arch", r"\EFI\arch\grubx64.efi", None, None).unwrap();
    assert_eq!(
        lines,
        vec![
            "Created boot entry Boot0002: Arch".to_string(),
            r"  Loader: \EFI\arch\grubx64.efi".to_string()
        ]
    );
    let entry = mgr.get_entry(2).unwrap();
    assert_eq!(entry.partition_guid.as_deref(), Some("00000000-0000-0000-0000-000000000000"));
    assert_eq!(mgr.get_boot_order().unwrap(), vec![0, 1, 2]);
    let lines = create::run(
        &mut mgr,
        "Fedora",
        r"\EFI\fedora\shimx64.efi",
        Some("90364BBD-1000-47FC-8C05-8707E01B4593"),
        Some("3"),
    )
    .unwrap();
    assert_eq!(lines[2], "  Partition: 90364BBD-1000-47FC-8C05-8707E01B4593");
    let entry = mgr.get_entry(3).unwrap();
    assert_eq!(entry.partition_guid.as_deref(), Some("90364bbd-1000-47fc-8c05-8707e01b4593"));
    assert_eq!(
        entry.device_path_display,
        r"HD(1,GPT,90364bbd-1000-47fc-8c05-8707e01b4593)/\EFI\fedora\shimx64.efi"
    );
    match create::run(&mut mgr, "X", "Y", Some("nope"), Some("5")) {
        Err(AppError::Parse { message }) => assert!(message.starts_with("Invalid partition GUID: ")),
        other => panic!("unexpected {other:?}"),
    }
    assert!(mgr.get_entry(5).is_err());
    assert!(matches!(
        create::run(&mut mgr, "X", "Y", None, Some("zz")),
        Err(AppError::InvalidEntryId { .. })
    ));
}

#[test]
fn toggling_twice_restores_the_entry() {
    let mut mgr = setup_mgr("toggle-twice");
    let before = mgr.get_entry(1).unwrap().raw_bytes;
    assert!(!mgr.toggle_active(1).unwrap());
    assert_ne!(mgr.get_entry(1).unwrap().raw_bytes, before);
    assert!(mgr.toggle_active(1).unwrap());
    assert_eq!(mgr.get_entry(1).unwrap().raw_bytes, before);
    match mgr.toggle_active(9) {
        Err(AppError::EntryNotFound { id }) => assert_eq!(id, 9),
        other => panic!("unexpected {other:?}"),
    }
}

#[test]
fn malformed_entry_bytes_are_reported() {
    let mut mgr = setup_mgr("malformed");
    mgr.write_raw("Boot0002", &[1, 0, 0, 0, 4, 0]).unwrap();
    match mgr.get_entry(2) {
        Err(AppError::Parse { message }) => assert!(message.starts_with("Failed to parse Boot0002: ")),
        other => panic!("unexpected {other:?}"),
    }
    assert!(decode_load_option(&[1, 2, 3]).is_err());
    mgr.set_boot_order(vec![0, 2, 1]).unwrap();
    let listed: Vec<u16> = mgr.list_entries().unwrap().iter().map(|e| e.id).collect();
    assert_eq!(listed, vec![0, 1]);
}

#[test]
fn export_then_restore_reproduces_the_entries() {
    let mut src = setup_mgr("roundtrip-src");
    src.set_boot_next(1).unwrap();
    let data = export(&src).unwrap();
    assert_eq!(data.boot_next, Some(1));
    assert_eq!(data.entries[1].id, "0001");
    assert_eq!(data.entries[0].vendor_guid, "8be4df61-93ca-11d2-aa0d-00e098032b8c");
    assert_eq!(data.entries[0].attributes, 7);
    assert!(!data.timestamp.is_empty());
    validate(&data).unwrap();
    let mut dst = setup_mgr("roundtrip-dst");
    dst.delete_entry(0).unwrap();
    dst.delete_entry(1).unwrap();
    restore(&mut dst, &data).unwrap();
    for id in [0u16, 1] {
        assert_eq!(dst.get_entry(id).unwrap().raw_bytes, src.get_entry(id).unwrap().raw_bytes);
    }
    assert_eq!(dst.get_boot_order().unwrap(), vec![0, 1]);
    assert_eq!(dst.get_boot_next().unwrap(), Some(1));
}

#[test]
fn invalid_backups_are_refused() {
    let src = setup_mgr("invalid-backup");
    let good = export(&src).unwrap();
    let entry = |id: &str, b64: &str| BackupEntry {
        id: id.to_string(),
        variable_name: format!("Boot{id}"),
        vendor_guid: String::new(),
        attributes: 7,
        raw_value_base64: b64.to_string(),
        decoded: None,
    };
    let with = |entries: Vec<BackupEntry>, order: Vec<u16>| BackupData {
        version: 1,
        timestamp: good.timestamp.clone(),
        boot_order: order,
        boot_next: None,
        entries,
    };
    let msg = |d: &BackupData| match validate(d) {
        Err(AppError::Backup { message }) => message,
        other => panic!("unexpected {other:?}"),
    };
    assert_eq!(msg(&with(vec![entry("zz", "AA==")], vec![])), "Invalid entry ID: zz");
    assert!(msg(&with(vec![entry("0001", "A")], vec![])).starts_with("Invalid base64 for Boot0001: "));
    assert_eq!(
        msg(&with(vec![entry("0001", "AA==")], vec![2])),
        "BootOrder references Boot0002 but no entry data found"
    );
    assert!(validate(&with(vec![entry("0001", "AA==")], vec![1])).is_ok());
    let mut dst = setup_mgr("invalid-backup-dst");
    assert!(restore(&mut dst, &with(vec![], vec![7])).is_err());
    assert_eq!(dst.get_boot_order().unwrap(), vec![0, 1]);
}

#[test]
fn backup_and_restore_lines() {
    let src = setup_mgr("backup-lines");
    let data = export(&src).unwrap();
    assert_eq!(
        backup_lines("b.json", &data),
        vec![
            "Backup saved to: b.json".to_string(),
            "  Entries: 2".to_string(),
            "  Boot order: [0, 1]".to_string()
        ]
    );
    assert_eq!(format_debug_ids(&vec![]), "[]");
    assert_eq!(format_debug_ids(&vec![10, 65535]), "[10, 65535]");
    let lines = restore_summary("b.json", &data).unwrap();
    assert_eq!(lines[0], "Backup file: b.json");
    assert_eq!(lines[1], "  Version:    1");
    assert_eq!(lines[5], "");
    assert_eq!(lines[6], "  Boot0000 — Windows");
    assert_eq!(lines[7], "  Boot0001 — Ubuntu");
    assert_eq!(lines[8], "");
    assert_eq!(lines.len(), 9);
    assert_eq!(auto_backup_path("b.json"), "b.json.pre-restore.json");
    assert_eq!(
        flag_lines("/dev/sda", 1, true),
        vec![
            "Set ESP flag on /dev/sda partition 1".to_string(),
            "Type GUID → c12a7328-f81f-11d2-ba4b-00a0c93ec93b".to_string()
        ]
    );
}

#[test]
fn written_entry_reads_back_field_for_field() {
    let mut mgr = setup_mgr("reads-back");
    let mut e = sample_entry("Arch Linux", r"\EFI\arch\grubx64.efi");
    e.attributes = 0x0000_0109;
    e.optional_data = vec![1, 2, 3];
    mgr.create_entry(3, e).unwrap();
    let info = mgr.get_entry(3).unwrap();
    let back = decode_load_option(&info.raw_bytes).unwrap();
    assert_eq!(back.attributes, 0x0000_0109);
    assert_eq!(back.description, "Arch Linux");
    assert_eq!(back.optional_data, vec![1, 2, 3]);
    let fpl = back.file_path_list.unwrap();
    assert_eq!(fpl.file_path, r"\EFI\arch\grubx64.efi");
    assert_eq!(fpl.hard_drive.partition_start, 2048);
    assert_eq!(fpl.hard_drive.partition_size, 1024000);
    assert_eq!(fpl.hard_drive.sig_type, DriveSignatureType::Gpt);
    assert_eq!(
        fpl.hard_drive.partition_sig,
        Uuid::from_str("90364bbd-1000-47fc-8c05-8707e01b4593").unwrap().as_u128()
    );
    let _ = mgr.delete_entry(3);
}

#[test]
fn restore_ignores_decoded_fields_and_timestamp() {
    let src = setup_mgr("ignore-decoded-src");
    let data = export(&src).unwrap();
    let stripped = BackupData {
        version: data.version,
        timestamp: "not a time".to_string(),
        boot_order: data.boot_order.clone(),
        boot_next: data.boot_next,
        entries: data
            .entries
            .iter()
            .map(|e| BackupEntry {
                id: e.id.clone(),
                variable_name: e.variable_name.clone(),
                vendor_guid: e.vendor_guid.clone(),
                attributes: e.attributes,
                raw_value_base64: e.raw_value_base64.clone(),
                decoded: None,
            })
            .collect(),
    };
    validate(&stripped).unwrap();
    let mut dst = setup_mgr("ignore-decoded-dst");
    dst.delete_entry(0).unwrap();
    dst.delete_entry(1).unwrap();
    restore(&mut dst, &stripped).unwrap();
    for id in [0u16, 1] {
        assert_eq!(dst.get_entry(id).unwrap().raw_bytes, src.get_entry(id).unwrap().raw_bytes);
    }
    assert_eq!(dst.get_boot_order().unwrap(), vec![0, 1]);
}

#[test]
fn help_and_details_close_back_to_the_list() {
    let mut app = setup_app("overlay");
    app.selected = 1;
    handle_key(&mut app, ch('?'));
    assert_eq!(app.view, View::Help);
    handle_key(&mut app, key(KeyCode::Esc));
    assert_eq!(app.view, View::EntryList);
    assert_eq!(app.selected, 1);
    handle_key(&mut app, key(KeyCode::Enter));
    assert_eq!(app.view, View::EntryDetail);
    handle_key(&mut app, key(KeyCode::Esc));
    assert_eq!(app.view, View::EntryList);
    assert_eq!(app.selected, 1);
    assert!(!app.should_quit);
}

#[test]
fn navigation_keys_stay_in_the_list() {
    let mut app = setup_app("navigation");
    let n = app.entries.len();
    assert_eq!(n, 2);
    for code in [KeyCode::Down, KeyCode::Down, KeyCode::Down] {
        handle_key(&mut app, key(code));
        assert!(app.selected < n);
    }
    assert_eq!(app.selected, 1);
    handle_key(&mut app, key(KeyCode::Home));
    assert_eq!(app.selected, 0);
    handle_key(&mut app, key(KeyCode::Up));
    assert_eq!(app.selected, 0);
    handle_key(&mut app, key(KeyCode::End));
    assert_eq!(app.selected, 1);
    handle_key(&mut app, ch('k'));
    assert_eq!(app.selected, 0);
}

#[test]
fn boot_ids_read_in_every_written_form() {
    for id in [0u16, 1, 0x0a, 0x1f, 0x2000, 0xbeef, 0xffff] {
        assert_eq!(parse_boot_id(&format!("{id:x}")).unwrap(), id);
        assert_eq!(parse_boot_id(&format!("{id:04X}")).unwrap(), id);
        assert_eq!(parse_boot_id(&format!("0x{id:04X}")).unwrap(), id);
        assert_eq!(parse_boot_id(&format!("0x{id:X}")).unwrap(), id);
        assert_eq!(parse_boot_id(&format!("{id:X}")).unwrap(), id);
    }
}

#[test]
fn any_key_keeps_the_selection_on_an_entry() {
    let mut app = setup_app("keys-keep-selection");
    let keys = [
        key(KeyCode::End),
        ch('e'),
        key(KeyCode::Esc),
        ch('n'),
        key(KeyCode::Enter),
        key(KeyCode::Enter),
        key(KeyCode::Enter),
        ch('w'),
        key(KeyCode::Esc),
        ch(' '),
        ch('d'),
        ch('y'),
        ch('R'),
        key(KeyCode::Down),
    ];
    for k in keys {
        handle_key(&mut app, k);
        assert!(app.entries.is_empty() || app.selected < app.entries.len());
    }
}

#[test]
fn a_store_that_cannot_delete_refuses_and_keeps_everything() {
    {
        let mut mgr = setup_mgr("no-delete");
        mgr.set_boot_order(vec![0, 1]).unwrap();
    }
    let backend = uefibootmgrrs::boot::store::Backend {
        manager: efivar::file_store("/tmp/uefibootmgrrs-logic-no-delete.toml"),
    };
    let mut mgr = BootManager::new(VarStore::firmware(backend, false));
    match mgr.delete_entry(0) {
        Err(AppError::Efi { message }) => assert!(message.contains("not supported")),
        other => panic!("unexpected {other:?}"),
    }
    assert_eq!(mgr.get_entry(0).unwrap().description, "Windows");
    assert_eq!(mgr.get_boot_order().unwrap(), vec![0, 1]);
}
