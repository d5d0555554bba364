use std::str::FromStr;

use uefibootmgrrs::boot::load_option::{
    encode_load_option, DevicePathList, DriveSignatureType, HardDrive, LoadOption,
};
use uefibootmgrrs::boot::manager::BootManager;
use uefibootmgrrs::boot::store::VarStore;
use uefibootmgrrs::cli::{create, delete, edit, entry_cmds, order};
use uuid::Uuid;

fn sample_entry(desc: &str, loader: &str) -> LoadOption {
    LoadOption {
        attributes: 1,
        description: desc.to_string(),
        file_path_list: Some(DevicePathList {
            file_path: loader.to_string(),
            hard_drive: HardDrive {
                partition_number: 1,
                partition_start: 2048,
                partition_size: 1024000,
                partition_sig: Uuid::from_str("90364bbd-1000-47fc-8c05-8707e01b4593")
                    .unwrap()
                    .as_u128(),
                format: 0x02,
                sig_type: DriveSignatureType::Gpt,
            },
        }),
        optional_data: Vec::new(),
    }
}

fn setup_mgr(suffix: &str) -> BootManager {
    let store = VarStore::file(&format!("/tmp/uefibootmgrrs-cli-{suffix}.toml"));
    let mut mgr = BootManager::new(store);
    for id in [0u16, 1, 2, 0x0A] {
        let _ = mgr.delete_entry(id);
    }
    let e0 = sample_entry("Windows", r"\EFI\Microsoft\Boot\bootmgfw.efi");
    let e1 = sample_entry("Ubuntu", r"\EFI\ubuntu\shimx64.efi");
    mgr.write_raw("Boot0000", &encode_load_option(&e0).unwrap()).unwrap();
    mgr.write_raw("Boot0001", &encode_load_option(&e1).unwrap()).unwrap();
    mgr.set_boot_order(vec![0, 1]).unwrap();
    mgr
}

#[test]
fn cli_list_json_output() {
    let mgr = setup_mgr("list-json");
    let entries = mgr.list_entries().unwrap();
    assert_eq!(entries.len(), 2);
}

#[test]
fn cli_list_table_output() {
    let mgr = setup_mgr("list-table");
    let entries = mgr.list_entries().unwrap();
    let current = mgr.get_boot_current().unwrap();
    let next = mgr.get_boot_next().unwrap();
    let rows = entry_cmds::list_rows(&entries, current, next);
    assert_eq!(rows.len(), 2);
    assert_eq!(rows[0][1], "0000");
    assert_eq!(rows[0][2], "Windows");
    assert_eq!(rows[0][3], "Yes");
    assert_eq!(rows[1][4], r"\EFI\ubuntu\shimx64.efi");
}

#[test]
fn cli_info_json() {
    let mgr = setup_mgr("info-json");
    let entry = entry_cmds::info(&mgr, "0000").unwrap();
    assert_eq!(entry.id, 0);
}

#[test]
fn cli_info_plain() {
    let mgr = setup_mgr("info-plain");
    let entry = entry_cmds::info(&mgr, "0000").unwrap();
    let lines = entry_cmds::info_lines(&entry);
    assert_eq!(lines[0], "Boot Entry 0000");
    assert_eq!(lines[1], "  Description:  Windows");
    assert_eq!(lines[2], "  Active:       Yes");
}

#[test]
fn cli_info_invalid_id() {
    let mgr = setup_mgr("info-invalid");
    let result = entry_cmds::info(&mgr, "ZZZZ");
    assert!(result.is_err());
}

#[test]
fn cli_create_auto_id() {
    let mut mgr = setup_mgr("create-auto");
    create::run(
        &mut mgr,
        "Fedora",
        r"\EFI\fedora\shimx64.efi",
        Some("90364bbd-1000-47fc-8c05-8707e01b4593"),
        None,
    )
    .unwrap();
    let entry = mgr.get_entry(2).unwrap();
    assert_eq!(entry.description, "Fedora");
}

#[test]
fn cli_create_explicit_id() {
    let mut mgr = setup_mgr("create-explicit");
    create::run(&mut mgr, "Arch", r"\EFI\arch\grubx64.efi", None, Some("000A")).unwrap();
    let entry = mgr.get_entry(0x0A).unwrap();
    assert_eq!(entry.description, "Arch");
}

#[test]
fn cli_delete_force() {
    let mut mgr = setup_mgr("delete-force");
    let plan = delete::prepare(&mgr, "0001").unwrap();
    delete::run(&mut mgr, &plan).unwrap();
    assert!(mgr.get_entry(1).is_err());
}

#[test]
fn cli_edit_description() {
    let mut mgr = setup_mgr("edit-desc");
    edit::run(&mut mgr, "0000", Some("New Windows"), None).unwrap();
    let entry = mgr.get_entry(0).unwrap();
    assert_eq!(entry.description, "New Windows");
}

#[test]
fn cli_edit_loader() {
    let mut mgr = setup_mgr("edit-loader");
    edit::run(&mut mgr, "0000", None, Some(r"\EFI\new\boot.efi")).unwrap();
    let entry = mgr.get_entry(0).unwrap();
    assert_eq!(entry.file_path.as_deref(), Some(r"\EFI\new\boot.efi"));
}

#[test]
fn cli_edit_no_changes() {
    let mut mgr = setup_mgr("edit-noop");
    let lines = edit::run(&mut mgr, "0000", None, None).unwrap();
    assert_eq!(lines, vec!["No changes specified.".to_string()]);
}

#[test]
fn cli_order() {
    let mut mgr = setup_mgr("order");
    order::run(&mut mgr, "0001,0000").unwrap();
    let order = mgr.get_boot_order().unwrap();
    assert_eq!(order, vec![1, 0]);
}

#[test]
fn cli_next() {
    let mut mgr = setup_mgr("next");
    entry_cmds::next(&mut mgr, "0001").unwrap();
    let next = mgr.get_boot_next().unwrap();
    assert_eq!(next, Some(1));
}

#[test]
fn cli_toggle_enable_already_active() {
    let mut mgr = setup_mgr("toggle-en");
    let lines = entry_cmds::run_enable(&mut mgr, "0000").unwrap();
    assert_eq!(lines, vec!["Boot0000 (Windows) is already enabled.".to_string()]);
}

#[test]
fn cli_toggle_disable_then_enable() {
    let mut mgr = setup_mgr("toggle-dis-en");
    entry_cmds::run_disable(&mut mgr, "0000").unwrap();
    let entry = mgr.get_entry(0).unwrap();
    assert!(!entry.active);
    entry_cmds::run_enable(&mut mgr, "0000").unwrap();
    let entry = mgr.get_entry(0).unwrap();
    assert!(entry.active);
}

#[test]
fn cli_backup_and_restore() {
    let mgr = setup_mgr("backup-restore");
    let data = uefibootmgrrs::boot::backup::export(&mgr).unwrap();
    let lines = uefibootmgrrs::cli::backup_cmds::backup_lines("/tmp/uefibootmgrrs-backup.json", &data);
    assert_eq!(lines[0], "Backup saved to: /tmp/uefibootmgrrs-backup.json");
    assert_eq!(data.entries.len(), 2);
}
