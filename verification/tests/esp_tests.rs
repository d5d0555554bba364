use uefibootmgrrs::boot::esp::{
    continue_esp_search, find_component, find_esp_mount, format_size, known_loaders, linux_esp_candidates,
    scan_esp_bootloaders, windows_access_paths, AccessPaths, AccessPathsJson, EspProbe, EspQuery, EspSearch, LoaderFile,
};
use uefibootmgrrs::boot::partitions::{
    clear_esp_flag, list_partitions, parse_linux_partitions, parse_windows_partitions,
    partition_type_result, set_esp_flag, PartitionListing, BASIC_DATA_TYPE_GUID, ESP_TYPE_GUID,
};
use uefibootmgrrs::boot::privilege::{check_privileges, privilege_hint, PrivilegeProbe};
use uefibootmgrrs::error::AppError;
use uefibootmgrrs::host::{CommandRun, Platform};
use uefibootmgrrs::text::split_on_exec;

#[test]
fn test_format_size() {
    assert_eq!(format_size(0), "0 B");
    assert_eq!(format_size(1023), "1023 B");
    assert_eq!(format_size(1024), "1.0 KB");
    assert_eq!(format_size(1024 * 1024), "1.0 MB");
    assert_eq!(format_size(1024 * 1024 * 1024), "1.0 GB");
}

#[test]
fn test_known_loaders_exhaustive() {
    for (path, identity, _) in known_loaders() {
        assert!(!path.is_empty(), "loader path should not be empty");
        assert!(!identity.is_empty(), "identity should not be empty");
        assert!(path.to_lowercase().ends_with(".efi"), "{path} should end with .efi");
    }
}

/// What the float formula of the size rendering gives.
fn float_size(bytes: u64) -> String {
    const KB: u64 = 1024;
    const MB: u64 = KB * 1024;
    const GB: u64 = MB * 1024;
    const TB: u64 = GB * 1024;
    if bytes >= TB {
        format!("{:.1} TB", bytes as f64 / TB as f64)
    } else if bytes >= GB {
        format!("{:.1} GB", bytes as f64 / GB as f64)
    } else if bytes >= MB {
        format!("{:.1} MB", bytes as f64 / MB as f64)
    } else if bytes >= KB {
        format!("{:.1} KB", bytes as f64 / KB as f64)
    } else {
        format!("{bytes} B")
    }
}

#[test]
fn format_size_matches_float_rendering() {
    let mut samples: Vec<u64> = vec![
        0, 1, 1023, 1024, 1075, 1076, 1126, 1280, 1331, 1536, 104857600, 536870912000,
        1099511627776, 1649267441664, u64::MAX, u64::MAX - 1, (1u64 << 53) + 1, 9007199254740993,
    ];
    let mut x: u64 = 12345;
    for _ in 0..2000 {
        x = x.wrapping_mul(6364136223846793005).wrapping_add(1442695040888963407);
        samples.push(x >> (x % 64));
        samples.push((x % 4096) * 1024 / 20 * 2 + 51);
    }
    for b in samples {
        assert_eq!(format_size(b), float_size(b), "size {b}");
    }
}

#[test]
fn format_size_exact_values() {
    assert_eq!(format_size(1536), "1.5 KB");
    assert_eq!(format_size(1280), "1.2 KB");
    assert_eq!(format_size(104857600), "100.0 MB");
    assert_eq!(format_size(1099511627776), "1.0 TB");
    assert_eq!(format_size(u64::MAX), "16777216.0 TB");
}

#[test]
fn linux_partitions_are_numbered_per_disk() {
    let json = r#"{"blockdevices":[
        {"name":"/dev/sda","children":[
            {"name":"/dev/sda1","parttype":"C12A7328-F81F-11D2-BA4B-00A0C93EC93B","size":"100M","mountpoint":"/boot/efi","label":""},
            {"name":"/dev/sda2","parttype":"0fc63daf-8483-4772-8e79-3d69d8477de4","size":"100M","mountpoint":"","label":"root"}]},
        {"children":[{"size":"100M","parttype":null,"mountpoint":null,"label":null}]},
        {"name":"/dev/sdc"}]}"#;
    let parts = list_partitions(PartitionListing::Linux(CommandRun::Succeeded(json.to_string()))).unwrap();
    assert_eq!(parts.len(), 3);
    assert_eq!(parts[0].disk, "/dev/sda");
    assert_eq!(parts[0].partition_number, 1);
    assert_eq!(parts[0].type_guid.as_deref(), Some(ESP_TYPE_GUID));
    assert!(parts[0].is_esp);
    assert_eq!(parts[0].mountpoint.as_deref(), Some("/boot/efi"));
    assert_eq!(parts[0].label, None);
    assert_eq!(parts[0].size.as_deref(), Some("100M"));
    assert_eq!(parts[1].partition_number, 2);
    assert!(!parts[1].is_esp);
    assert_eq!(parts[1].mountpoint, None);
    assert_eq!(parts[1].label.as_deref(), Some("root"));
    assert_eq!(parts[2].disk, "");
    assert_eq!(parts[2].partition_number, 1);
    assert_eq!(parts[2].type_guid, None);
    assert_eq!(parse_linux_partitions(json).unwrap().len(), 3);
}

#[test]
fn linux_partition_listing_errors() {
    match list_partitions(PartitionListing::Linux(CommandRun::NotStarted("no such file".to_string()))) {
        Err(AppError::Efi { message }) => assert_eq!(message, "Failed to run lsblk: no such file"),
        other => panic!("unexpected {other:?}"),
    }
    match list_partitions(PartitionListing::Linux(CommandRun::Failed("boom".to_string()))) {
        Err(AppError::Efi { message }) => assert_eq!(message, "lsblk failed: boom"),
        other => panic!("unexpected {other:?}"),
    }
    match list_partitions(PartitionListing::Linux(CommandRun::Succeeded("not json".to_string()))) {
        Err(AppError::Parse { message }) => assert!(message.starts_with("Failed to parse lsblk JSON: ")),
        other => panic!("unexpected {other:?}"),
    }
    assert!(parse_linux_partitions(r#"{"other":1}"#).unwrap().is_empty());
    match list_partitions(PartitionListing::Unsupported) {
        Err(AppError::Efi { message }) => {
            assert_eq!(message, "Partition listing is not supported on this platform")
        },
        other => panic!("unexpected {other:?}"),
    }
}

#[test]
fn windows_partitions_single_and_multiple() {
    let json = r#"[
        {"DiskNumber":0,"PartitionNumber":1,"GptType":"{c12a7328-f81f-11d2-ba4b-00a0c93ec93b}","Size":104857600,"DriveLetter":"","Type":"System"},
        {"DiskNumber":0,"PartitionNumber":2,"GptType":"{EBD0A0A2-B9E5-4433-87C0-68B6B72699C7}","Size":536870912000,"DriveLetter":"C","Type":"Basic"}
    ]"#;
    let parts = list_partitions(PartitionListing::Windows(CommandRun::Succeeded(json.to_string()))).unwrap();
    assert_eq!(parts.len(), 2);
    assert!(parts[0].is_esp);
    assert_eq!(parts[0].partition_number, 1);
    assert_eq!(parts[0].disk, "Disk 0");
    assert_eq!(parts[0].size.as_deref(), Some("100.0 MB"));
    assert_eq!(parts[0].mountpoint, None);
    assert!(!parts[1].is_esp);
    assert_eq!(parts[1].type_guid.as_deref(), Some(BASIC_DATA_TYPE_GUID));
    assert_eq!(parts[1].mountpoint.as_deref(), Some("C:"));
    assert_eq!(parts[1].size.as_deref(), Some("500.0 GB"));
    let none = list_partitions(PartitionListing::Windows(CommandRun::Succeeded("  \n".to_string()))).unwrap();
    assert!(none.is_empty());
    assert!(parse_windows_partitions("42").unwrap().is_empty());
    match parse_windows_partitions("{oops") {
        Err(AppError::Parse { message }) => assert!(message.starts_with("Failed to parse partition JSON: ")),
        other => panic!("unexpected {other:?}"),
    }
}

#[test]
fn windows_partition_missing_fields() {
    let json = r#"{"PartitionNumber":4294967299,"DriveLetter":"\u0000","Size":"big"}"#;
    let parts = parse_windows_partitions(json).unwrap();
    assert_eq!(parts.len(), 1);
    assert_eq!(parts[0].disk, "Disk 0");
    assert_eq!(parts[0].partition_number, 3);
    assert_eq!(parts[0].mountpoint, None);
    assert_eq!(parts[0].size, None);
    assert!(!parts[0].is_esp);
}

#[test]
fn windows_access_paths_are_read() {
    match windows_access_paths(r#"["\\\\?\\Volume{1}\\","Z:\\"]"#) {
        AccessPathsJson::List(ps) => assert_eq!(ps, vec![r"\\?\Volume{1}\".to_string(), r"Z:\".to_string()]),
        other => panic!("unexpected {other:?}"),
    }
    match windows_access_paths(" \"E:\\\\\" ") {
        AccessPathsJson::Single(p) => assert_eq!(p, r"E:\"),
        other => panic!("unexpected {other:?}"),
    }
    assert!(matches!(windows_access_paths(""), AccessPathsJson::Neither));
    assert!(matches!(windows_access_paths("{}"), AccessPathsJson::Neither));
}

#[test]
fn esp_flag_commands() {
    let c = set_esp_flag(Platform::Windows, "Disk 2", 1).unwrap();
    assert_eq!(c.program, "powershell");
    assert_eq!(
        c.args,
        vec![
            "-NoProfile".to_string(),
            "-Command".to_string(),
            "Set-Partition -DiskNumber 2 -PartitionNumber 1 -GptType '{c12a7328-f81f-11d2-ba4b-00a0c93ec93b}'".to_string()
        ]
    );
    let c = clear_esp_flag(Platform::Windows, "disk 7", 3).unwrap();
    assert_eq!(
        c.args[2],
        "Set-Partition -DiskNumber 7 -PartitionNumber 3 -GptType '{ebd0a0a2-b9e5-4433-87c0-68b6b72699c7}'"
    );
    match set_esp_flag(Platform::Windows, "/dev/sda", 1) {
        Err(AppError::Parse { message }) => {
            assert_eq!(message, "Invalid disk identifier: /dev/sda. Expected format: 'Disk N'")
        },
        other => panic!("unexpected {other:?}"),
    }
    let c = set_esp_flag(Platform::Linux, "/dev/sda", 1).unwrap();
    assert_eq!(c.program, "sgdisk");
    assert_eq!(c.args, vec!["--typecode=1:EF00".to_string(), "/dev/sda".to_string()]);
    let c = clear_esp_flag(Platform::Linux, "/dev/nvme0n1", 12).unwrap();
    assert_eq!(c.args[0], "--typecode=12:0700");
    assert!(set_esp_flag(Platform::Other, "x", 1).is_err());
    assert!(partition_type_result(Platform::Linux, CommandRun::Succeeded(())).is_ok());
    match partition_type_result(Platform::Linux, CommandRun::Failed("oops".to_string())) {
        Err(AppError::Efi { message }) => assert_eq!(message, "sgdisk failed: oops"),
        other => panic!("unexpected {other:?}"),
    }
    match partition_type_result(Platform::Windows, CommandRun::NotStarted("gone".to_string())) {
        Err(AppError::Efi { message }) => assert_eq!(message, "Failed to run PowerShell: gone"),
        other => panic!("unexpected {other:?}"),
    }
}

fn found(s: EspSearch) -> String {
    match s {
        EspSearch::Found(p) => p,
        other => panic!("expected a path, got {other:?}"),
    }
}

#[test]
fn linux_esp_search() {
    assert!(matches!(find_esp_mount(Platform::Linux), EspSearch::Ask(EspQuery::LinuxCandidates)));
    assert_eq!(linux_esp_candidates(), vec!["/boot/efi", "/efi", "/boot"]);
    assert_eq!(found(continue_esp_search(EspProbe::LinuxCandidates(vec![false, true, true]))), "/efi");
    assert!(matches!(
        continue_esp_search(EspProbe::LinuxCandidates(vec![false, false, false])),
        EspSearch::Ask(EspQuery::LinuxMounts)
    ));
    let lines = vec![("/mnt/a".to_string(), false), ("/mnt/esp".to_string(), true)];
    assert_eq!(found(continue_esp_search(EspProbe::LinuxMounts(Some(lines)))), "/mnt/esp");
    match continue_esp_search(EspProbe::LinuxMounts(None)) {
        EspSearch::Failed(AppError::Efi { message }) => assert_eq!(
            message,
            "Could not find mounted ESP. Check that it is mounted at /boot/efi or /efi."
        ),
        other => panic!("unexpected {other:?}"),
    }
}

#[test]
fn windows_esp_search() {
    assert!(matches!(find_esp_mount(Platform::Windows), EspSearch::Ask(EspQuery::WindowsAccessPaths)));
    let paths = vec![
        ("\\\\?\\Volume{1234}\\".to_string(), false),
        ("Z:\\".to_string(), false),
        ("Y:\\".to_string(), true),
    ];
    assert_eq!(
        found(continue_esp_search(EspProbe::WindowsAccessPaths(CommandRun::Succeeded(AccessPaths::List(paths))))),
        "Y:\\"
    );
    let paths = vec![("\\\\?\\Volume{1234}\\".to_string(), false), ("Z:\\".to_string(), false)];
    assert_eq!(
        found(continue_esp_search(EspProbe::WindowsAccessPaths(CommandRun::Succeeded(AccessPaths::List(paths))))),
        "Z:\\"
    );
    assert_eq!(
        found(continue_esp_search(EspProbe::WindowsAccessPaths(CommandRun::Succeeded(
            AccessPaths::Single("E:\\".to_string())
        )))),
        "E:\\"
    );
    assert!(matches!(
        continue_esp_search(EspProbe::WindowsAccessPaths(CommandRun::Succeeded(AccessPaths::Unusable))),
        EspSearch::Ask(EspQuery::WindowsMountvol)
    ));
    assert_eq!(found(continue_esp_search(EspProbe::WindowsMountvol(CommandRun::Succeeded(true)))), "S:\\");
    match continue_esp_search(EspProbe::WindowsMountvol(CommandRun::Succeeded(false))) {
        EspSearch::Failed(AppError::Efi { message }) => assert_eq!(
            message,
            "Could not find or mount the ESP partition. Try running as administrator."
        ),
        other => panic!("unexpected {other:?}"),
    }
    assert!(matches!(find_esp_mount(Platform::Other), EspSearch::Failed(AppError::Efi { .. })));
}

#[test]
fn bootloader_scan_assembles_found_loaders() {
    let n = known_loaders().len();
    let mut found: Vec<Option<LoaderFile>> = (0..n).map(|_| None).collect();
    found[0] = Some(LoaderFile { size: Some(15), modified: Some("2024-01-02 03:04:05".to_string()) });
    found[3] = Some(LoaderFile { size: None, modified: None });
    let results = scan_esp_bootloaders(&found);
    assert_eq!(results.len(), 2);
    assert_eq!(results[0].path, r"\EFI\BOOT\BOOTX64.EFI");
    assert!(results[0].identity.contains("Default Fallback"));
    assert!(results[0].is_default);
    assert_eq!(results[0].size.as_deref(), Some("15 B"));
    assert_eq!(results[0].modified.as_deref(), Some("2024-01-02 03:04:05"));
    assert_eq!(results[1].path, r"\EFI\Microsoft\Boot\bootmgfw.efi");
    assert!(results[1].identity.contains("Windows"));
    assert!(!results[1].is_default);
    assert!(scan_esp_bootloaders(&Vec::new()).is_empty());
}

#[test]
fn privileges_by_platform() {
    assert!(check_privileges(PrivilegeProbe::Windows { admin: true }).is_ok());
    match check_privileges(PrivilegeProbe::Windows { admin: false }) {
        Err(AppError::Privilege { message }) => assert_eq!(
            message,
            "This program must be run as Administrator to access EFI variables"
        ),
        other => panic!("unexpected {other:?}"),
    }
    match check_privileges(PrivilegeProbe::Linux { efivars_exist: false, efivars_readable: true }) {
        Err(AppError::Privilege { message }) => assert!(message.starts_with("EFI variables not available")),
        other => panic!("unexpected {other:?}"),
    }
    match check_privileges(PrivilegeProbe::Linux { efivars_exist: true, efivars_readable: false }) {
        Err(AppError::Privilege { message }) => assert!(message.starts_with("Cannot read")),
        other => panic!("unexpected {other:?}"),
    }
    assert!(check_privileges(PrivilegeProbe::Linux { efivars_exist: true, efivars_readable: true }).is_ok());
    assert!(check_privileges(PrivilegeProbe::Other).is_ok());
    assert_eq!(
        privilege_hint(Platform::Linux),
        "Run this program as root, or ensure /sys/firmware/efi/efivars is mounted"
    );
    assert_eq!(privilege_hint(Platform::Other), "EFI variable access is not supported on this platform");
}

#[test]
fn test_scan_esp_bootloaders_mock() {
    let loaders = known_loaders();
    let found: Vec<Option<LoaderFile>> = loaders
        .iter()
        .map(|(path, _, _)| {
            if *path == r"EFI\BOOT\BOOTX64.EFI" {
                Some(LoaderFile { size: Some(15), modified: Some("2025-01-01 00:00:00".to_string()) })
            } else if *path == r"EFI\Microsoft\Boot\bootmgfw.efi" {
                Some(LoaderFile { size: Some(20), modified: Some("2025-01-01 00:00:00".to_string()) })
            } else {
                None
            }
        })
        .collect();
    let results = scan_esp_bootloaders(&found);
    assert!(results.len() >= 2, "expected at least 2 loaders, got {}", results.len());
    let default = results.iter().find(|r| r.identity.contains("Default Fallback"));
    assert!(default.is_some(), "should find UEFI default fallback");
    let default = default.unwrap();
    assert!(default.is_default);
    assert!(default.size.is_some());
    assert!(default.modified.is_some());
    let windows = results.iter().find(|r| r.identity.contains("Windows"));
    assert!(windows.is_some(), "should find Windows boot manager");
    assert!(!windows.unwrap().is_default);
}

#[test]
fn test_scan_esp_empty_dir() {
    let found: Vec<Option<LoaderFile>> = known_loaders().iter().map(|_| None).collect();
    let results = scan_esp_bootloaders(&found);
    assert!(results.is_empty());
}

#[test]
fn test_parse_windows_single_partition() {
    let json = r#"{"DiskNumber":0,"PartitionNumber":1,"GptType":"{c12a7328-f81f-11d2-ba4b-00a0c93ec93b}","Size":104857600,"DriveLetter":"","Type":"System"}"#;
    let parts = parse_windows_partitions(json).unwrap();
    assert_eq!(parts.len(), 1);
    assert!(parts[0].is_esp);
    assert_eq!(parts[0].partition_number, 1);
}

#[test]
fn test_parse_windows_multiple_partitions() {
    let json = r#"[
            {"DiskNumber":0,"PartitionNumber":1,"GptType":"{c12a7328-f81f-11d2-ba4b-00a0c93ec93b}","Size":104857600,"DriveLetter":"","Type":"System"},
            {"DiskNumber":0,"PartitionNumber":2,"GptType":"{ebd0a0a2-b9e5-4433-87c0-68b6b72699c7}","Size":536870912000,"DriveLetter":"C","Type":"Basic"}
        ]"#;
    let parts = parse_windows_partitions(json).unwrap();
    assert_eq!(parts.len(), 2);
    assert!(parts[0].is_esp);
    assert!(!parts[1].is_esp);
    assert_eq!(parts[1].mountpoint.as_deref(), Some("C:"));
}

#[test]
fn test_parse_windows_empty() {
    let parts = parse_windows_partitions("").unwrap();
    assert!(parts.is_empty());
}

#[test]
fn find_component_ignores_case_and_takes_the_first() {
    let names = vec!["boot".to_string(), "EFI".to_string(), "efi".to_string()];
    assert_eq!(find_component(&names, "efi"), Some(1));
    assert_eq!(find_component(&names, "BOOT"), Some(0));
    assert_eq!(find_component(&names, "Microsoft"), None);
    assert_eq!(find_component(&Vec::new(), "EFI"), None);
}

#[test]
fn split_on_backslash_matches_std() {
    for text in [r"EFI\Boot\bootx64.efi", "", r"\a\\b\", "plain"] {
        let expected: Vec<String> = text.split('\\').map(|s| s.to_string()).collect();
        assert_eq!(split_on_exec(text, '\\'), expected);
    }
}
