use zbm_installer::command::{CommandOutput, Outcome};
use zbm_installer::config::{Config, RaidLevel, GIB, MIB};
use zbm_installer::disk::DeviceAttributes;
use zbm_installer::validation::{RequiredTools, SystemFacts};
use zbm_installer::{InstallerError, ValidationResult, Validator};

fn device(sectors: u64) -> DeviceAttributes {
    DeviceAttributes {
        present: true,
        size: Ok(format!("{}\n", sectors)),
        logical_block_size: Ok("512\n".to_string()),
        physical_block_size: Ok("4096\n".to_string()),
        removable: Some("0\n".to_string()),
        readonly: Some("0\n".to_string()),
        rotational: Some("0\n".to_string()),
        model: None,
        vendor: None,
        serial: None,
        entries: Vec::new(),
    }
}

fn facts(devices: Vec<DeviceAttributes>) -> SystemFacts {
    SystemFacts {
        is_root: true,
        is_uefi: true,
        source_root_exists: true,
        zfs_version: Outcome::Exited(CommandOutput {
            code: Some(0),
            stdout: "zfs-2.2.2-1\n".to_string(),
            stderr: String::new(),
        }),
        mounts: Ok("proc /proc proc rw 0 0\n".to_string()),
        memory: Ok("MemTotal:       16384256 kB\n".to_string()),
        tools: RequiredTools { sgdisk: true, mkfs_vfat: true, zpool: true, zfs: true },
        devices,
    }
}

fn mirror() -> Config {
    let mut config = Config::default();
    config.devices = vec!["/dev/sda".to_string(), "/dev/sdb".to_string()];
    config.raid_level = RaidLevel::Mirror;
    config
}

const TB: u64 = 1_953_525_168;

#[test]
fn test_validation_result() {
    let mut result = ValidationResult::new();
    assert!(result.is_ok());

    result.add_warning("Test warning".to_string());
    assert!(result.is_ok());

    result.add_error("Test error".to_string());
    assert!(!result.is_ok());
}

#[test]
fn test_validator_creation() {
    let config = Config::default();
    let validator = Validator::new(config);
    // Just test that it creates successfully
    assert_eq!(validator.config.pool_name, "zroot");
}

#[test]
fn gathered_facts_hold_what_was_read() {
    let found = SystemFacts::gather(
        false,
        Outcome::Done,
        Ok("mounts".to_string()),
        Err("no memory table".to_string()),
        RequiredTools { sgdisk: true, mkfs_vfat: false, zpool: true, zfs: false },
        vec![device(TB)],
    );
    assert!(!found.source_root_exists);
    assert!(matches!(found.zfs_version, Outcome::Done));
    assert_eq!(found.mounts, Ok("mounts".to_string()));
    assert_eq!(found.memory, Err("no memory table".to_string()));
    assert!(found.tools.sgdisk && !found.tools.mkfs_vfat && found.tools.zpool && !found.tools.zfs);
    assert_eq!(found.devices.len(), 1);
    assert_eq!(found.is_root, zbm_installer::system::is_root());
    assert_eq!(found.is_uefi, zbm_installer::system::is_uefi());
}

#[test]
fn a_result_keeps_its_messages_in_order() {
    let mut result = ValidationResult::default();
    result.add_error("first".to_string());
    result.add_warning("careful".to_string());
    result.add_error("second".to_string());
    assert_eq!(result.errors, vec!["first", "second"]);
    assert_eq!(result.warnings, vec!["careful"]);
    assert!(!result.passed);
}

#[test]
fn a_sound_system_passes() {
    let result = Validator::new(mirror()).validate(&facts(vec![device(TB), device(TB)])).unwrap();
    assert!(result.is_ok());
    assert!(result.errors.is_empty());
    assert!(result.warnings.is_empty());
}

#[test]
fn every_failed_check_is_reported_in_the_order_of_the_checks() {
    let mut config = mirror();
    config.pool_name = "bad/name".to_string();
    config.efi_size = 10 * MIB;
    let mut found = facts(vec![device(TB), device(TB)]);
    found.is_root = false;
    found.is_uefi = false;
    found.zfs_version = Outcome::Failed("No such file or directory".to_string());
    found.tools = RequiredTools { sgdisk: false, mkfs_vfat: false, zpool: false, zfs: false };
    found.memory = Ok("MemTotal: 1572864 kB\n".to_string());
    let result = Validator::new(config).validate(&found).unwrap();
    assert!(!result.is_ok());
    assert_eq!(
        result.errors,
        vec![
            "This program must be run as root",
            "System must be booted in UEFI mode",
            "Configuration error: Validation failed: Pool name must contain only alphanumeric characters, underscores, hyphens, and dots",
            "Configuration error: Validation failed: EFI partition must be at least 100MB",
            "ZFS is not available on this system. Please install ZFS first.",
            "Required command not found: sgdisk",
            "Required command not found: mkfs.vfat",
            "Required command not found: zpool",
            "Required command not found: zfs",
        ]
    );
    assert_eq!(
        result.warnings,
        vec!["System has only 1GB of RAM. ZFS recommends at least 2GB."]
    );
}

#[test]
fn one_device_for_a_mirror_is_a_configuration_error() {
    let mut config = mirror();
    config.devices.pop();
    let result = Validator::new(config).validate(&facts(vec![device(TB)])).unwrap();
    assert_eq!(
        result.errors,
        vec![
            "Configuration error: Validation failed: RAID level mirror requires at least 2 device(s), but only 1 provided"
        ]
    );
}

#[test]
fn devices_are_judged_one_by_one() {
    let mut readonly = device(TB);
    readonly.readonly = Some("1".to_string());
    let small = device(4 * GIB / 512);
    let mut missing = device(TB);
    missing.present = false;
    let mut config = mirror();
    config.devices = vec![
        "/dev/sda".to_string(),
        "/dev/sdb".to_string(),
        "/dev/sdc".to_string(),
        "/dev/sdd".to_string(),
    ];
    let mut found = facts(vec![readonly, small, missing]);
    found.mounts = Ok("/dev/sda1 / ext4 rw 0 0\n".to_string());
    let result = Validator::new(config).validate(&found).unwrap();
    assert_eq!(
        result.errors,
        vec![
            "Invalid device /dev/sda: Device is read-only",
            "Invalid device /dev/sdb: Device too small (4294967296 bytes, need at least 8GB)",
            "Device /dev/sdb is too small (4.0 GiB, need at least 19.0 GiB)",
            "Device /dev/sdc: Device not found: /dev/sdc",
            "Device /dev/sdd: Device not found: /dev/sdd",
        ]
    );
}

#[test]
fn a_mounted_device_is_reported_as_in_use() {
    let mut found = facts(vec![device(TB), device(TB)]);
    found.mounts = Ok("/dev/sdb /mnt ext4 rw 0 0\n".to_string());
    let result = Validator::new(mirror()).validate(&found).unwrap();
    assert_eq!(
        result.errors,
        vec!["Device /dev/sdb is currently in use (mounted or part of active pool)"]
    );
    found.mounts = Err("permission denied".to_string());
    let result = Validator::new(mirror()).validate(&found).unwrap();
    assert_eq!(
        result.errors,
        vec!["I/O error: permission denied", "I/O error: permission denied"]
    );
}

#[test]
fn force_admits_removable_devices_with_a_warning() {
    let mut stick = device(TB);
    stick.removable = Some("1".to_string());
    let mut config = Config::default();
    config.devices = vec!["/dev/sda".to_string()];

    let result =
        Validator::new(config.clone()).validate(&facts(vec![device(TB)])).unwrap();
    assert!(result.is_ok());

    let mut found = facts(vec![stick]);
    let result = Validator::new(config.clone()).validate(&found).unwrap();
    assert_eq!(
        result.errors,
        vec!["Invalid device /dev/sda: Device is removable (use --force to override)"]
    );
    assert!(result.warnings.is_empty());

    config.force = true;
    let result = Validator::new(config.clone()).validate(&found).unwrap();
    assert!(result.is_ok());
    assert_eq!(
        result.warnings,
        vec!["Device /dev/sda is removable but --force was specified"]
    );

    found.devices[0].readonly = Some("1".to_string());
    let result = Validator::new(config).validate(&found).unwrap();
    assert_eq!(result.errors, vec!["Invalid device /dev/sda: Device is read-only"]);
    assert_eq!(
        result.warnings,
        vec!["Device /dev/sda is removable but --force was specified"]
    );
}

#[test]
fn a_path_without_base_name_ends_the_walk() {
    let mut config = mirror();
    config.devices = vec!["/dev/sda".to_string(), "/".to_string(), "/dev/sdc".to_string()];
    let mut small = device(1000);
    small.readonly = Some("1".to_string());
    let result = Validator::new(config)
        .validate(&facts(vec![small, device(TB), device(10)]))
        .unwrap();
    assert_eq!(
        result.errors,
        vec![
            "Invalid device /dev/sda: Device is read-only",
            "Device /dev/sda is too small (500.0 KiB, need at least 19.0 GiB)",
            "Device validation failed: Device not found: /",
        ]
    );
}

#[test]
fn little_memory_is_a_warning_only() {
    let mut found = facts(vec![device(TB), device(TB)]);
    found.memory = Ok("MemTotal: 2097151 kB\n".to_string());
    let result = Validator::new(mirror()).validate(&found).unwrap();
    assert!(result.is_ok());
    assert_eq!(
        result.warnings,
        vec!["System has only 1GB of RAM. ZFS recommends at least 2GB."]
    );
    found.memory = Ok("MemTotal: 2097152 kB\n".to_string());
    assert!(Validator::new(mirror()).validate(&found).unwrap().warnings.is_empty());
    found.memory = Ok(String::new());
    assert_eq!(
        Validator::new(mirror()).validate(&found).unwrap().warnings,
        vec!["System has only 0GB of RAM. ZFS recommends at least 2GB."]
    );
}

#[test]
fn a_memory_table_that_cannot_be_had_fails_the_validation() {
    let mut found = facts(vec![device(TB), device(TB)]);
    found.memory = Err("No such file or directory".to_string());
    match Validator::new(mirror()).validate(&found) {
        Err(InstallerError::Io(msg)) => assert_eq!(msg, "No such file or directory"),
        other => panic!("expected an I/O error, got {:?}", other),
    }
    found.memory = Ok("MemTotal: many kB\n".to_string());
    assert!(matches!(
        Validator::new(mirror()).validate(&found),
        Err(InstallerError::ParseError(_))
    ));
}
