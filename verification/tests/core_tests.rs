use std::str::FromStr;

use uefibootmgrrs::boot::backup::{export, restore, validate, BackupData};
use uefibootmgrrs::boot::load_option::{
    decode_load_option, encode_load_option, DevicePathList, DriveSignatureType, HardDrive,
    LoadOption,
};
use uefibootmgrrs::boot::manager::BootManager;
use uefibootmgrrs::boot::store::VarStore;
use uefibootmgrrs::error::parse_boot_id;
use uuid::Uuid;

fn sample_entry(desc: &str, loader: &str) -> LoadOption {
    LoadOption {
        attributes: 1,
        description: desc.to_string(),
        file_path_list: Some(DevicePathList {
            file_path: loader.to_string(),
            hard_drive: HardDrive {
                partition_number: 1,
                partition_start: 2048,
                partition_size: 1024000,
                partition_sig: Uuid::from_str("90364bbd-1000-47fc-8c05-8707e01b4593")
                    .unwrap()
                    .as_u128(),
                format: 0x02,
                sig_type: DriveSignatureType::Gpt,
            },
        }),
        optional_data: Vec::new(),
    }
}

/// A manager over a file store that holds no entries 0, 1, 2 or 0x0A.
fn empty_mgr(name: &str) -> BootManager {
    let store = VarStore::file(&format!("/tmp/uefibootmgrrs-core-{name}.toml"));
    let mut mgr = BootManager::new(store);
    for id in [0u16, 1, 2, 0x0A] {
        let _ = mgr.delete_entry(id);
    }
    mgr
}

fn setup_mgr(name: &str) -> BootManager {
    let mut mgr = empty_mgr(name);
    let e0 = sample_entry("Windows Boot Manager", r"\EFI\Microsoft\Boot\bootmgfw.efi");
    let e1 = sample_entry("Ubuntu", r"\EFI\ubuntu\shimx64.efi");
    mgr.write_raw("Boot0000", &encode_load_option(&e0).unwrap()).unwrap();
    mgr.write_raw("Boot0001", &encode_load_option(&e1).unwrap()).unwrap();
    mgr.set_boot_order(vec![0, 1]).unwrap();
    mgr
}

#[test]
fn test_list_entries() {
    let mgr = setup_mgr("list");
    let entries = mgr.list_entries().unwrap();
    assert_eq!(entries.len(), 2);
    assert_eq!(entries[0].description, "Windows Boot Manager");
    assert_eq!(entries[1].description, "Ubuntu");
    assert!(entries[0].active);
    assert!(entries[1].active);
}

#[test]
fn test_get_entry() {
    let mgr = setup_mgr("get");
    let entry = mgr.get_entry(0).unwrap();
    assert_eq!(entry.id, 0);
    assert_eq!(entry.description, "Windows Boot Manager");
    assert_eq!(entry.file_path.as_deref(), Some(r"\EFI\Microsoft\Boot\bootmgfw.efi"));
    assert!(entry.partition_guid.is_some());
}

#[test]
fn test_get_entry_not_found() {
    let mgr = setup_mgr("not-found");
    let result = mgr.get_entry(99);
    assert!(result.is_err());
}

#[test]
fn test_create_entry() {
    let mut mgr = setup_mgr("create");
    let new_entry = sample_entry("Fedora", r"\EFI\fedora\shimx64.efi");
    mgr.create_entry(2, new_entry).unwrap();
    let order = mgr.get_boot_order().unwrap();
    assert!(order.contains(&2));
    let entry = mgr.get_entry(2).unwrap();
    assert_eq!(entry.description, "Fedora");
}

#[test]
fn test_delete_entry() {
    let mut mgr = setup_mgr("delete");
    mgr.delete_entry(1).unwrap();
    let order = mgr.get_boot_order().unwrap();
    assert!(!order.contains(&1));
    assert!(mgr.get_entry(1).is_err());
}

#[test]
fn test_set_boot_order() {
    let mut mgr = setup_mgr("order");
    mgr.set_boot_order(vec![1, 0]).unwrap();
    let order = mgr.get_boot_order().unwrap();
    assert_eq!(order, vec![1, 0]);
}

#[test]
fn test_set_boot_next() {
    let mut mgr = setup_mgr("next");
    mgr.set_boot_next(1).unwrap();
    let next = mgr.get_boot_next().unwrap();
    assert_eq!(next, Some(1));
}

#[test]
fn test_toggle_active() {
    let mut mgr = setup_mgr("toggle");
    let entry = mgr.get_entry(0).unwrap();
    assert!(entry.active);
    let new_active = mgr.toggle_active(0).unwrap();
    assert!(!new_active);
    let entry = mgr.get_entry(0).unwrap();
    assert!(!entry.active);
    let new_active = mgr.toggle_active(0).unwrap();
    assert!(new_active);
}

#[test]
fn test_next_free_id() {
    let mgr = setup_mgr("free-id");
    let free_id = mgr.next_free_id().unwrap();
    assert_eq!(free_id, 2);
}

#[test]
fn test_update_entry() {
    let mut mgr = setup_mgr("update");
    let info = mgr.get_entry(0).unwrap();
    let mut entry = decode_load_option(&info.raw_bytes).unwrap();
    entry.description = "Modified Windows".to_string();
    mgr.update_entry(0, entry).unwrap();
    let updated = mgr.get_entry(0).unwrap();
    assert_eq!(updated.description, "Modified Windows");
}

/// The backup as JSON, written field by field.
fn backup_to_json(b: &BackupData) -> String {
    let entries: Vec<serde_json::Value> = b
        .entries
        .iter()
        .map(|e| {
            let mut m = serde_json::Map::new();
            m.insert("id".to_string(), serde_json::Value::from(e.id.clone()));
            m.insert("variable_name".to_string(), serde_json::Value::from(e.variable_name.clone()));
            m.insert("vendor_guid".to_string(), serde_json::Value::from(e.vendor_guid.clone()));
            m.insert("attributes".to_string(), serde_json::Value::from(e.attributes));
            m.insert(
                "raw_value_base64".to_string(),
                serde_json::Value::from(e.raw_value_base64.clone()),
            );
            serde_json::Value::Object(m)
        })
        .collect();
    let mut m = serde_json::Map::new();
    m.insert("version".to_string(), serde_json::Value::from(b.version));
    m.insert("timestamp".to_string(), serde_json::Value::from(b.timestamp.clone()));
    m.insert("boot_order".to_string(), serde_json::Value::from(b.boot_order.clone()));
    m.insert("boot_next".to_string(), serde_json::Value::from(b.boot_next));
    m.insert("entries".to_string(), serde_json::Value::Array(entries));
    serde_json::to_string_pretty(&serde_json::Value::Object(m)).unwrap()
}

/// The backup read back from its JSON, field by field.
fn backup_from_json(text: &str) -> BackupData {
    let v: serde_json::Value = serde_json::from_str(text).unwrap();
    let s = |x: &serde_json::Value| x.as_str().unwrap().to_string();
    BackupData {
        version: v["version"].as_u64().unwrap() as u32,
        timestamp: s(&v["timestamp"]),
        boot_order: v["boot_order"]
            .as_array()
            .unwrap()
            .iter()
            .map(|x| x.as_u64().unwrap() as u16)
            .collect(),
        boot_next: v["boot_next"].as_u64().map(|x| x as u16),
        entries: v["entries"]
            .as_array()
            .unwrap()
            .iter()
            .map(|e| uefibootmgrrs::boot::backup::BackupEntry {
                id: s(&e["id"]),
                variable_name: s(&e["variable_name"]),
                vendor_guid: s(&e["vendor_guid"]),
                attributes: e["attributes"].as_u64().unwrap() as u32,
                raw_value_base64: s(&e["raw_value_base64"]),
                decoded: None,
            })
            .collect(),
    }
}

#[test]
fn test_backup_export_roundtrip() {
    let mgr = setup_mgr("export");
    let backup = export(&mgr).unwrap();
    assert_eq!(backup.version, 1);
    assert_eq!(backup.boot_order, vec![0, 1]);
    assert_eq!(backup.entries.len(), 2);
    assert_eq!(backup.entries[0].variable_name, "Boot0000");
    assert_eq!(backup.entries[1].variable_name, "Boot0001");
    let decoded = backup.entries[0].decoded.as_ref().unwrap();
    assert_eq!(decoded.description, "Windows Boot Manager");
    assert!(decoded.active);
    validate(&backup).unwrap();
    let json = backup_to_json(&backup);
    let restored = backup_from_json(&json);
    validate(&restored).unwrap();
}

#[test]
fn test_backup_restore() {
    let src_mgr = setup_mgr("restore-src");
    let backup = export(&src_mgr).unwrap();
    let mut dst_mgr = empty_mgr("restore-dst");
    restore(&mut dst_mgr, &backup).unwrap();
    let order = dst_mgr.get_boot_order().unwrap();
    assert_eq!(order, vec![0, 1]);
    let entry0 = dst_mgr.get_entry(0).unwrap();
    assert_eq!(entry0.description, "Windows Boot Manager");
    let entry1 = dst_mgr.get_entry(1).unwrap();
    assert_eq!(entry1.description, "Ubuntu");
}

#[test]
fn test_backup_validate_bad_version() {
    let backup = BackupData {
        version: 99,
        timestamp: "2025-01-01T00:00:00Z".to_string(),
        boot_order: vec![],
        boot_next: None,
        entries: vec![],
    };
    let result = validate(&backup);
    assert!(result.is_err());
}

#[test]
fn test_parse_boot_id() {
    assert_eq!(parse_boot_id("0001").unwrap(), 1);
    assert_eq!(parse_boot_id("FFFF").unwrap(), 0xFFFF);
    assert_eq!(parse_boot_id("0x0A").unwrap(), 10);
    assert!(parse_boot_id("ZZZZ").is_err());
    assert!(parse_boot_id("").is_err());
}
