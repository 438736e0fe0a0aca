use zbm_installer::command::{CommandOutput, FailurePolicy, Operation, Outcome, Step};
use zbm_installer::config::{Compression, RaidLevel};
use zbm_installer::zfs::dataset::{layout_entry_name, layout_entry_properties, DATASET_COUNT};
use zbm_installer::zfs::tools::version_query;
use zbm_installer::zfs::{
    check_zfs_available, get_zfs_version, DatasetManager, DatasetProperty, ZfsPool,
};
use zbm_installer::InstallerError;

fn line(step: &Step) -> String {
    match &step.operation {
        Operation::Run { command, policy } => {
            assert_eq!(*policy, FailurePolicy::Zfs);
            command.line()
        }
        other => panic!("expected a command, got {:?}", other),
    }
}

fn exited(code: i32, stdout: &str) -> Outcome {
    Outcome::Exited(CommandOutput {
        code: Some(code),
        stdout: stdout.to_string(),
        stderr: String::new(),
    })
}

fn pool(raid_level: RaidLevel, devices: &[&str], ashift: Option<u8>) -> ZfsPool {
    ZfsPool::new(
        "zroot".to_string(),
        raid_level,
        devices.iter().map(|d| d.to_string()).collect(),
        ashift,
        Compression::Zstd,
        true,
    )
}

#[test]
fn test_dataset_manager_creation() {
    let manager = DatasetManager::new("testpool".to_string(), true);
    assert_eq!(manager.pool_name, "testpool");
    assert!(manager.dry_run);
}

#[test]
fn test_dataset_property() {
    let prop = DatasetProperty { key: "mountpoint".to_string(), value: "/mnt".to_string() };

    assert_eq!(prop.key, "mountpoint");
    assert_eq!(prop.value, "/mnt");
}

#[test]
fn test_check_zfs_available() {
    let result = check_zfs_available(&exited(0, "zfs-2.2.2-1\n"));
    assert!(result.is_ok());
}

#[test]
fn test_zfs_pool_creation() {
    let pool = ZfsPool::new(
        "testpool".to_string(),
        RaidLevel::NoRedundancy,
        vec!["/dev/sda3".to_string()],
        Some(12),
        Compression::Zstd,
        true, // dry run
    );

    assert_eq!(pool.name, "testpool");
    assert_eq!(pool.raid_level, RaidLevel::NoRedundancy);
}

#[test]
fn test_pool_exists_nonexistent() {
    let pool = ZfsPool::new(
        "nonexistent_pool_xyz123".to_string(),
        RaidLevel::NoRedundancy,
        vec![],
        None,
        Compression::Zstd,
        false,
    );

    // This should return false for a pool that doesn't exist
    assert_eq!(pool.list_command().line(), "\"zpool\" \"list\" \"nonexistent_pool_xyz123\"");
    assert!(!pool.is_present(&exited(1, "")));
}

#[test]
fn a_pool_is_there_when_listing_it_succeeds() {
    let pool = pool(RaidLevel::NoRedundancy, &[], None);
    assert!(pool.is_present(&exited(0, "zroot  1.8T ...")));
    assert!(!pool.is_present(&Outcome::Failed("No such file or directory".to_string())));
    assert!(!pool.is_present(&Outcome::Done));
    assert!(!pool.is_present(&Outcome::Exited(CommandOutput {
        code: None,
        stdout: String::new(),
        stderr: String::new(),
    })));
}

#[test]
fn a_mirror_is_created_over_its_devices() {
    let step = pool(RaidLevel::Mirror, &["/dev/sda3", "/dev/sdb3"], Some(12)).create();
    assert!(step.simulated);
    assert_eq!(
        line(&step),
        "\"zpool\" \"create\" \"-f\" \"-m\" \"none\" \"-o\" \"ashift=12\" \
         \"-O\" \"acltype=posixacl\" \"-O\" \"xattr=sa\" \"-O\" \"dnodesize=auto\" \
         \"-O\" \"compression=zstd\" \"-O\" \"normalization=formD\" \"-O\" \"relatime=on\" \
         \"zroot\" \"mirror\" \"/dev/sda3\" \"/dev/sdb3\""
    );
}

#[test]
fn a_single_device_pool_has_no_vdev_keyword_and_may_leave_ashift_out() {
    let step = pool(RaidLevel::NoRedundancy, &["/dev/nvme0n1p2"], None).create();
    assert_eq!(
        line(&step),
        "\"zpool\" \"create\" \"-f\" \"-m\" \"none\" \
         \"-O\" \"acltype=posixacl\" \"-O\" \"xattr=sa\" \"-O\" \"dnodesize=auto\" \
         \"-O\" \"compression=zstd\" \"-O\" \"normalization=formD\" \"-O\" \"relatime=on\" \
         \"zroot\" \"/dev/nvme0n1p2\""
    );
}

#[test]
fn every_raid_level_gives_its_keyword() {
    for (level, word) in [
        (RaidLevel::Raidz1, "raidz1"),
        (RaidLevel::Raidz2, "raidz2"),
        (RaidLevel::Raidz3, "raidz3"),
    ] {
        let text = line(&pool(level, &["/dev/a", "/dev/b", "/dev/c"], Some(9)).create());
        assert!(text.ends_with(&format!(
            "\"zroot\" \"{}\" \"/dev/a\" \"/dev/b\" \"/dev/c\"",
            word
        )));
        assert!(text.contains("\"-o\" \"ashift=9\""));
    }
}

#[test]
fn the_compression_is_a_property_of_the_pool() {
    let pool = ZfsPool::new(
        "tank".to_string(),
        RaidLevel::NoRedundancy,
        vec!["/dev/sda2".to_string()],
        None,
        Compression::Lz4,
        false,
    );
    let step = pool.create();
    assert!(!step.simulated);
    assert!(line(&step).contains("\"-O\" \"compression=lz4\""));
}

#[test]
fn other_pool_operations_are_single_commands() {
    let pool = pool(RaidLevel::NoRedundancy, &[], None);
    assert_eq!(line(&pool.destroy()), "\"zpool\" \"destroy\" \"-f\" \"zroot\"");
    assert_eq!(line(&pool.export()), "\"zpool\" \"export\" \"zroot\"");
    assert_eq!(line(&pool.import()), "\"zpool\" \"import\" \"-f\" \"zroot\"");
    assert_eq!(
        line(&pool.set_bootfs("ROOT/default")),
        "\"zpool\" \"set\" \"bootfs=zroot/ROOT/default\" \"zroot\""
    );
    assert_eq!(line(&pool.status()), "\"zpool\" \"status\" \"zroot\"");
}

#[test]
fn the_status_is_what_the_tool_wrote() {
    let real = ZfsPool::new(
        "zroot".to_string(),
        RaidLevel::NoRedundancy,
        Vec::new(),
        None,
        Compression::Zstd,
        false,
    );
    assert_eq!(real.status_text(&exited(0, "  pool: zroot\n state: ONLINE\n")).unwrap(), "  pool: zroot\n state: ONLINE\n");
    assert_eq!(real.status_text(&Outcome::Done).unwrap(), "");
    match real.status_text(&exited(1, "")) {
        Err(InstallerError::ZfsError { operation, .. }) => {
            assert_eq!(operation, "\"zpool\" \"status\" \"zroot\"")
        }
        other => panic!("expected a ZFS error, got {:?}", other),
    }
    let dry = pool(RaidLevel::NoRedundancy, &[], None);
    assert_eq!(dry.status_text(&exited(1, "ignored")).unwrap(), "");
}

#[test]
fn a_dataset_is_created_with_its_properties() {
    let manager = DatasetManager::new("zroot".to_string(), false);
    let properties = vec![
        DatasetProperty { key: "canmount".to_string(), value: "noauto".to_string() },
        DatasetProperty { key: "mountpoint".to_string(), value: "/".to_string() },
    ];
    assert_eq!(
        line(&manager.create_dataset("ROOT/default", &properties)),
        "\"zfs\" \"create\" \"-o\" \"canmount=noauto\" \"-o\" \"mountpoint=/\" \"zroot/ROOT/default\""
    );
    assert_eq!(line(&manager.create_dataset("data", &[])), "\"zfs\" \"create\" \"zroot/data\"");
}

#[test]
fn the_hierarchy_is_fixed() {
    let manager = DatasetManager::new("zroot".to_string(), true);
    let steps = manager.create_zbm_datasets();
    assert_eq!(steps.len(), DATASET_COUNT);
    let text: Vec<String> = steps.iter().map(line).collect();
    assert_eq!(
        text,
        vec![
            "\"zfs\" \"create\" \"-o\" \"canmount=off\" \"-o\" \"mountpoint=none\" \"zroot/ROOT\"",
            "\"zfs\" \"create\" \"-o\" \"canmount=noauto\" \"-o\" \"mountpoint=/\" \"zroot/ROOT/default\"",
            "\"zfs\" \"create\" \"-o\" \"mountpoint=/home\" \"zroot/home\"",
            "\"zfs\" \"create\" \"-o\" \"mountpoint=/root\" \"zroot/home/root\"",
            "\"zfs\" \"create\" \"-o\" \"canmount=off\" \"-o\" \"mountpoint=none\" \"zroot/var\"",
            "\"zfs\" \"create\" \"-o\" \"mountpoint=/var/log\" \"-o\" \"acltype=posixacl\" \"-o\" \"xattr=sa\" \"zroot/var/log\"",
            "\"zfs\" \"create\" \"-o\" \"mountpoint=/var/cache\" \"-o\" \"com.sun:auto-snapshot=false\" \"zroot/var/cache\"",
            "\"zfs\" \"create\" \"-o\" \"mountpoint=/var/tmp\" \"-o\" \"com.sun:auto-snapshot=false\" \"zroot/var/tmp\"",
            "\"zfs\" \"create\" \"-o\" \"mountpoint=/opt\" \"zroot/opt\"",
            "\"zfs\" \"create\" \"-o\" \"mountpoint=/srv\" \"zroot/srv\"",
            "\"zfs\" \"create\" \"-o\" \"canmount=off\" \"-o\" \"mountpoint=none\" \"zroot/usr\"",
            "\"zfs\" \"create\" \"-o\" \"mountpoint=/usr/local\" \"zroot/usr/local\"",
        ]
    );
    assert!(steps.iter().all(|step| step.simulated));
}

#[test]
fn parents_come_before_their_children() {
    let names: Vec<&str> = (0..DATASET_COUNT).map(layout_entry_name).collect();
    for (i, name) in names.iter().enumerate() {
        if let Some(cut) = name.rfind('/') {
            let parent = &name[..cut];
            let at = names.iter().position(|n| n == &parent).unwrap();
            assert!(at < i, "{} before {}", parent, name);
        }
    }
    assert_eq!(layout_entry_properties(5).len(), 3);
    assert_eq!(layout_entry_properties(2)[0].value, "/home");
}

#[test]
fn dataset_operations_are_single_commands() {
    let manager = DatasetManager::new("zroot".to_string(), false);
    assert_eq!(
        line(&manager.snapshot("ROOT/default", "initial")),
        "\"zfs\" \"snapshot\" \"zroot/ROOT/default@initial\""
    );
    assert_eq!(line(&manager.mount("ROOT/default")), "\"zfs\" \"mount\" \"zroot/ROOT/default\"");
    assert_eq!(line(&manager.unmount("home")), "\"zfs\" \"unmount\" \"zroot/home\"");
    let property = DatasetProperty { key: "atime".to_string(), value: "off".to_string() };
    assert_eq!(
        line(&manager.set_property("home", &property)),
        "\"zfs\" \"set\" \"atime=off\" \"zroot/home\""
    );
}

#[test]
fn zfs_is_there_when_its_tool_succeeds() {
    assert_eq!(version_query().line(), "\"zpool\" \"version\"");
    assert_eq!(check_zfs_available(&exited(0, "")).ok(), Some(true));
    assert_eq!(check_zfs_available(&exited(127, "")).ok(), Some(false));
    assert_eq!(check_zfs_available(&Outcome::Failed("not found".to_string())).ok(), Some(false));
    assert_eq!(check_zfs_available(&Outcome::Done).ok(), Some(false));
}

#[test]
fn the_version_is_the_first_line_of_the_output() {
    assert_eq!(get_zfs_version(&exited(0, "zfs-2.2.2-1\nzfs-kmod-2.2.2-1\n")).unwrap(), "zfs-2.2.2-1");
    assert_eq!(get_zfs_version(&exited(0, "zfs-2.2.2-1\r\nmore")).unwrap(), "zfs-2.2.2-1");
    assert_eq!(get_zfs_version(&exited(0, "zfs-2.2.2-1")).unwrap(), "zfs-2.2.2-1");
    assert_eq!(get_zfs_version(&exited(0, "\nzfs")).unwrap(), "");
    assert_eq!(get_zfs_version(&exited(0, "")).unwrap(), "unknown");
    assert_eq!(get_zfs_version(&exited(1, "zfs-2.2.2-1\n")).unwrap(), "unknown");
    assert_eq!(get_zfs_version(&Outcome::Done).unwrap(), "unknown");
    match get_zfs_version(&Outcome::Failed("No such file or directory".to_string())) {
        Err(InstallerError::Io(msg)) => assert_eq!(msg, "No such file or directory"),
        other => panic!("expected an I/O error, got {:?}", other),
    }
}
