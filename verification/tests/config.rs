use zbm_installer::config::{check_pool_name, Compression, Config, InstallMode, RaidLevel, GIB, MIB};
use zbm_installer::InstallerError;

fn message(result: Result<(), InstallerError>) -> String {
    match result {
        Err(InstallerError::ValidationError(msg)) => msg,
        other => panic!("expected a validation error, got {:?}", other),
    }
}

fn two_devices() -> Config {
    let mut config = Config::default();
    config.devices = vec!["/dev/sda".to_string(), "/dev/sdb".to_string()];
    config
}

#[test]
fn test_raid_level_min_drives() {
    assert_eq!(RaidLevel::NoRedundancy.min_drives(), 1);
    assert_eq!(RaidLevel::Mirror.min_drives(), 2);
    assert_eq!(RaidLevel::Raidz1.min_drives(), 3);
    assert_eq!(RaidLevel::Raidz2.min_drives(), 4);
    assert_eq!(RaidLevel::Raidz3.min_drives(), 5);
}

#[test]
fn test_config_validation_empty_devices() {
    let config = Config::default();
    assert!(config.validate(true).is_err());
}

#[test]
fn test_config_validation_raid_mismatch() {
    let mut config = Config::default();
    config.devices = vec!["/dev/sda".to_string()];
    config.raid_level = RaidLevel::Mirror; // Needs 2+ devices
    assert!(config.validate(true).is_err());
}

#[test]
fn test_config_validation_valid() {
    let mut config = Config::default();
    config.devices = vec!["/dev/sda".to_string(), "/dev/sdb".to_string()];
    config.raid_level = RaidLevel::Mirror;
    assert!(config.validate(true).is_ok());
}

#[test]
fn test_config_validation_invalid_pool_name() {
    let mut config = Config::default();
    config.pool_name = "pool/name".to_string(); // Invalid character
    config.devices = vec!["/dev/sda".to_string()];
    assert!(config.validate(true).is_err());
}

#[test]
fn test_compression_display() {
    assert_eq!(Compression::Zstd.to_string(), "zstd");
    assert_eq!(Compression::Lz4.to_string(), "lz4");
}

#[test]
fn compression_names_and_default() {
    assert_eq!(Compression::Off.to_string(), "off");
    assert_eq!(Compression::Gzip.to_string(), "gzip");
    assert_eq!(Compression::Lzjb.to_string(), "lzjb");
    assert_eq!(Compression::default(), Compression::Zstd);
}

#[test]
fn defaults_are_as_documented() {
    let config = Config::new();
    assert_eq!(config.mode, InstallMode::New);
    assert_eq!(config.pool_name, "zroot");
    assert!(config.devices.is_empty());
    assert_eq!(config.raid_level, RaidLevel::NoRedundancy);
    assert_eq!(config.efi_size, GIB);
    assert_eq!(config.swap_size, 8 * GIB);
    assert_eq!(config.ashift, None);
    assert_eq!(config.compression, Compression::Zstd);
    assert_eq!(config.source_root, "/");
    assert!(config.copy_home);
    assert!(!config.dry_run && !config.force && !config.skip_preflight);
}

#[test]
fn raid_level_names_keywords_and_descriptions() {
    assert_eq!(RaidLevel::NoRedundancy.vdev_type(), None);
    assert_eq!(RaidLevel::Mirror.vdev_type(), Some("mirror"));
    assert_eq!(RaidLevel::Raidz1.vdev_type(), Some("raidz1"));
    assert_eq!(RaidLevel::Raidz2.vdev_type(), Some("raidz2"));
    assert_eq!(RaidLevel::Raidz3.vdev_type(), Some("raidz3"));
    assert_eq!(RaidLevel::NoRedundancy.to_string(), "none");
    assert_eq!(RaidLevel::Raidz2.to_string(), "raidz2");
    assert_eq!(RaidLevel::NoRedundancy.description(), "No redundancy");
    assert_eq!(RaidLevel::Mirror.description(), "RAID1 - Can lose N-1 drives");
    assert_eq!(RaidLevel::Raidz3.description(), "Can lose 3 drives");
    assert_eq!(InstallMode::New.to_string(), "New Installation");
    assert_eq!(InstallMode::Existing.to_string(), "Migrate Existing System");
}

#[test]
fn min_drives_never_decreases_along_the_levels() {
    let levels = [
        RaidLevel::NoRedundancy,
        RaidLevel::Mirror,
        RaidLevel::Raidz1,
        RaidLevel::Raidz2,
        RaidLevel::Raidz3,
    ];
    for pair in levels.windows(2) {
        assert!(pair[0].min_drives() <= pair[1].min_drives());
    }
}

#[test]
fn device_count_is_held_against_the_raid_level() {
    let levels = [
        RaidLevel::NoRedundancy,
        RaidLevel::Mirror,
        RaidLevel::Raidz1,
        RaidLevel::Raidz2,
        RaidLevel::Raidz3,
    ];
    for level in levels {
        for count in 1..=6usize {
            let mut config = Config::default();
            config.raid_level = level;
            config.devices = (0..count).map(|i| format!("/dev/sd{}", i)).collect();
            assert_eq!(config.validate(true).is_ok(), count >= level.min_drives());
        }
    }
}

#[test]
fn raid_mismatch_message_names_level_and_counts() {
    let mut config = Config::default();
    config.devices = vec!["/dev/sda".to_string()];
    config.raid_level = RaidLevel::Mirror;
    assert_eq!(
        message(config.validate(true)),
        "RAID level mirror requires at least 2 device(s), but only 1 provided"
    );
}

#[test]
fn empty_device_list_has_its_own_message() {
    assert_eq!(
        message(Config::default().validate(true)),
        "At least one device must be selected"
    );
}

#[test]
fn pool_names_hold_letters_digits_and_three_signs() {
    for good in ["zroot", "my-pool_1.0", "A", "9", "_", "a.b-c_d"] {
        assert!(check_pool_name(good), "{}", good);
    }
    for bad in ["", "pool/name", "pool name", "zr\u{f6}ot", "tank!", "a\tb"] {
        assert!(!check_pool_name(bad), "{:?}", bad);
    }
}

#[test]
fn pool_name_messages() {
    let mut config = two_devices();
    config.pool_name = String::new();
    assert_eq!(message(config.validate(true)), "Pool name cannot be empty");
    config.pool_name = "pool/name".to_string();
    assert_eq!(
        message(config.validate(true)),
        "Pool name must contain only alphanumeric characters, underscores, hyphens, and dots"
    );
}

#[test]
fn ashift_must_lie_between_9_and_16() {
    let mut config = two_devices();
    for ashift in [9u8, 12, 16] {
        config.ashift = Some(ashift);
        assert!(config.validate(true).is_ok());
    }
    config.ashift = Some(8);
    assert_eq!(message(config.validate(true)), "ashift must be between 9 and 16, got 8");
    config.ashift = Some(17);
    assert_eq!(message(config.validate(true)), "ashift must be between 9 and 16, got 17");
}

#[test]
fn efi_size_below_100_mib_is_a_violation() {
    let mut config = two_devices();
    config.efi_size = 100 * MIB;
    assert!(config.validate(true).is_ok());
    config.efi_size = 100 * MIB - 1;
    assert_eq!(message(config.validate(true)), "EFI partition must be at least 100MB");
}

#[test]
fn small_efi_is_listed_whatever_else_is_wrong() {
    let mut config = Config::default();
    config.pool_name = "bad/name".to_string();
    config.raid_level = RaidLevel::Raidz3;
    config.ashift = Some(3);
    config.efi_size = 50 * MIB;
    config.mode = InstallMode::Existing;
    let all = config.violations(false);
    assert_eq!(all.len(), 5);
    assert!(all.contains(&"EFI partition must be at least 100MB".to_string()));
    assert_eq!(all[4], "Source root does not exist: /");
    assert_eq!(
        message(config.validate(false)),
        "Pool name must contain only alphanumeric characters, underscores, hyphens, and dots; \
         At least one device must be selected; \
         ashift must be between 9 and 16, got 3; \
         EFI partition must be at least 100MB; \
         Source root does not exist: /"
    );
}

#[test]
fn validation_reports_a_small_efi_size_whatever_else_is_wrong() {
    let names = ["zroot", "", "bad/name"];
    let counts = [0usize, 1, 2, 5];
    let levels = [RaidLevel::NoRedundancy, RaidLevel::Mirror, RaidLevel::Raidz3];
    let shifts = [None, Some(3u8), Some(12)];
    let modes = [InstallMode::New, InstallMode::Existing];
    for name in names {
        for count in counts {
            for level in levels {
                for ashift in shifts {
                    for mode in modes {
                        for exists in [true, false] {
                            let mut config = Config::default();
                            config.pool_name = name.to_string();
                            config.devices = (0..count).map(|i| format!("/dev/sd{}", i)).collect();
                            config.raid_level = level;
                            config.ashift = ashift;
                            config.mode = mode;
                            config.efi_size = 100 * MIB - 1;
                            let text = message(config.validate(exists));
                            assert!(text.contains("EFI partition must be at least 100MB"), "{}", text);
                            let all = config.violations(exists);
                            assert_eq!(text, all.join("; "));
                        }
                    }
                }
            }
        }
    }
}

#[test]
fn a_single_violation_stands_alone() {
    let mut config = two_devices();
    config.efi_size = 1;
    assert_eq!(message(config.validate(true)), "EFI partition must be at least 100MB");
    config.pool_name = String::new();
    assert_eq!(
        message(config.validate(true)),
        "Pool name cannot be empty; EFI partition must be at least 100MB"
    );
}

#[test]
fn existing_mode_needs_its_source_root() {
    let mut config = two_devices();
    config.mode = InstallMode::Existing;
    config.source_root = "/old".to_string();
    assert!(config.validate(true).is_ok());
    assert_eq!(message(config.validate(false)), "Source root does not exist: /old");
    config.mode = InstallMode::New;
    assert!(config.validate(false).is_ok());
}

#[test]
fn partitions_per_device_counts_swap() {
    let mut config = Config::default();
    assert_eq!(config.partitions_per_device(), 3);
    config.swap_size = 0;
    assert_eq!(config.partitions_per_device(), 2);
}

#[test]
fn min_device_size_adds_ten_gib() {
    let mut config = Config::default();
    assert_eq!(config.min_device_size(), 19 * GIB);
    assert!(config.is_too_small(19 * GIB - 1));
    assert!(!config.is_too_small(19 * GIB));
    config.swap_size = u64::MAX;
    assert_eq!(config.min_device_size(), u64::MAX);
    assert!(config.is_too_small(u64::MAX));
}

#[test]
fn min_device_size_adds_the_configured_bytes() {
    let mut config = Config::default();
    config.efi_size = 104_857_601;
    config.swap_size = 0;
    assert_eq!(config.min_device_size(), 104_857_601 + 10 * GIB);
    assert!(config.is_too_small(104_857_600 + 10 * GIB));
    assert!(!config.is_too_small(104_857_601 + 10 * GIB));
    config.swap_size = 8_000_000_000;
    assert_eq!(config.min_device_size(), 104_857_601 + 8_000_000_000 + 10 * GIB);
    config.swap_size = 1;
    config.efi_size = 512 * MIB;
    assert_eq!(config.min_device_size(), 512 * MIB + 1 + 10 * GIB);
}
