use zbm_installer::bootloader::InitramfsTools;
use zbm_installer::command::{CommandOutput, Operation, Outcome, Step};
use zbm_installer::config::{Config, InstallMode, RaidLevel, MIB};
use zbm_installer::disk::DeviceAttributes;
use zbm_installer::installer::Progress;
use zbm_installer::validation::{RequiredTools, SystemFacts};
use zbm_installer::{Action, Event, Installer, InstallerError, Phase};

fn device(sectors: u64) -> DeviceAttributes {
    DeviceAttributes {
        present: true,
        size: Ok(format!("{}\n", sectors)),
        logical_block_size: Ok("512\n".to_string()),
        physical_block_size: Ok("4096\n".to_string()),
        removable: Some("0\n".to_string()),
        readonly: Some("0\n".to_string()),
        rotational: Some("0\n".to_string()),
        model: None,
        vendor: None,
        serial: None,
        entries: Vec::new(),
    }
}

fn missing() -> DeviceAttributes {
    let mut attributes = device(0);
    attributes.present = false;
    attributes
}

/// A system that answers every question of the engine.
struct System {
    root: bool,
    disks: Vec<(&'static str, DeviceAttributes)>,
    dracut: bool,
    failing: Option<&'static str>,
}

impl System {
    fn sound() -> System {
        System {
            root: true,
            disks: vec![
                ("sda", device(1_953_525_168)),
                ("sdb", device(1_953_525_168)),
                ("nvme0n1", device(1_953_525_168)),
            ],
            dracut: true,
            failing: None,
        }
    }

    fn attributes(&self, name: &str) -> DeviceAttributes {
        match self.disks.iter().find(|(known, _)| *known == name) {
            Some((_, found)) => DeviceAttributes {
                present: found.present,
                size: found.size.clone(),
                logical_block_size: found.logical_block_size.clone(),
                physical_block_size: found.physical_block_size.clone(),
                removable: found.removable.clone(),
                readonly: found.readonly.clone(),
                rotational: found.rotational.clone(),
                model: found.model.clone(),
                vendor: found.vendor.clone(),
                serial: found.serial.clone(),
                entries: found.entries.clone(),
            },
            None => missing(),
        }
    }

    fn facts(&self, config: &Config) -> SystemFacts {
        SystemFacts {
            is_root: self.root,
            is_uefi: true,
            source_root_exists: true,
            zfs_version: Outcome::Exited(CommandOutput {
                code: Some(0),
                stdout: "zfs-2.2.2-1\n".to_string(),
                stderr: String::new(),
            }),
            mounts: Ok(String::new()),
            memory: Ok("MemTotal:       16384256 kB\n".to_string()),
            tools: RequiredTools { sgdisk: true, mkfs_vfat: true, zpool: true, zfs: true },
            devices: config
                .devices
                .iter()
                .map(|path| self.attributes(path.rsplit('/').next().unwrap()))
                .collect(),
        }
    }

    fn perform(&self, step: &Step) -> Outcome {
        if step.simulated {
            return Outcome::Done;
        }
        match &step.operation {
            Operation::Run { command, .. } => {
                let code = if Some(command.program.as_str()) == self.failing { 1 } else { 0 };
                Outcome::Exited(CommandOutput {
                    code: Some(code),
                    stdout: String::new(),
                    stderr: if code == 0 { String::new() } else { "it broke".to_string() },
                })
            }
            _ => Outcome::Done,
        }
    }
}

/// What a run left behind.
struct Record {
    phases: Vec<Phase>,
    lines: Vec<String>,
    performed: usize,
    simulated: usize,
    result: Result<(), InstallerError>,
}

fn shown(step: &Step) -> String {
    match &step.operation {
        Operation::Run { command, .. } => command.line(),
        Operation::CreateDirectory { path } => format!("mkdir {}", path),
        Operation::WriteFile { path, .. } => format!("write {}", path),
        Operation::CopyFile { from, to } => format!("copy {} {}", from, to),
    }
}

fn run(config: Config, system: &System) -> Record {
    let mut installer = Installer::new(config, true).unwrap();
    let mut record =
        Record { phases: Vec::new(), lines: Vec::new(), performed: 0, simulated: 0, result: Ok(()) };
    let mut event = Event::Proceed;
    for _ in 0..1000 {
        match installer.install(event) {
            Action::Announce(phase) => {
                assert_eq!(installer.phase(), phase);
                record.phases.push(phase);
                event = Event::Proceed;
            }
            Action::GatherFacts => event = Event::Facts(system.facts(installer.config())),
            Action::ResolveDevice(name) => event = Event::Device(system.attributes(&name)),
            Action::ProbeTools => {
                event = Event::Tools(InitramfsTools {
                    dracut: system.dracut,
                    mkinitcpio: false,
                    generate_zbm: false,
                })
            }
            Action::Perform(step) => {
                record.lines.push(shown(&step));
                if step.simulated {
                    record.simulated += 1;
                } else {
                    record.performed += 1;
                }
                event = Event::Outcome(system.perform(&step));
            }
            Action::Finish => {
                assert_eq!(installer.progress(), Progress::Completed);
                assert!(matches!(installer.install(Event::Proceed), Action::Finish));
                return record;
            }
            Action::Abort(e) => {
                assert_eq!(installer.progress(), Progress::Aborted);
                assert!(matches!(
                    installer.install(Event::Proceed),
                    Action::Abort(InstallerError::Other(_))
                ));
                record.result = Err(e);
                return record;
            }
        }
    }
    panic!("the installation does not end");
}

fn mirror(dry_run: bool) -> Config {
    let mut config = Config::default();
    config.devices = vec!["/dev/sda".to_string(), "/dev/sdb".to_string()];
    config.raid_level = RaidLevel::Mirror;
    config.pool_name = "zroot".to_string();
    config.dry_run = dry_run;
    config
}

const POOL_CREATE: &str = "\"zpool\" \"create\" \"-f\" \"-m\" \"none\" \
\"-O\" \"acltype=posixacl\" \"-O\" \"xattr=sa\" \"-O\" \"dnodesize=auto\" \
\"-O\" \"compression=zstd\" \"-O\" \"normalization=formD\" \"-O\" \"relatime=on\" \
\"zroot\" \"mirror\" \"/dev/sda3\" \"/dev/sdb3\"";

#[test]
fn test_installer_creation_requires_valid_config() {
    let config = Config::default(); // Empty devices
    let result = Installer::new(config, true);
    assert!(result.is_err());
}

#[test]
fn test_installer_with_dry_run() {
    let mut config = Config::default();
    config.devices = vec!["/dev/sda".to_string()];
    config.dry_run = true;

    let result = Installer::new(config, true);
    assert!(result.is_ok());
}

#[test]
fn a_dry_run_over_a_mirror_goes_through_all_phases() {
    let record = run(mirror(true), &System::sound());
    assert!(record.result.is_ok());
    assert_eq!(
        record.phases,
        vec![
            Phase::Validate,
            Phase::PrepareDisks,
            Phase::CreateZfs,
            Phase::MountFilesystem,
            Phase::InstallBootloader,
            Phase::Finalize,
        ]
    );
    assert_eq!(record.performed, 0);
    assert_eq!(record.lines.iter().filter(|line| line.contains("\"zpool\" \"create\"")).count(), 1);
    assert!(record.lines.contains(&POOL_CREATE.to_string()));
}

#[test]
fn the_pool_is_created_once_between_the_disks_and_the_datasets() {
    for dry_run in [true, false] {
        let record = run(mirror(dry_run), &System::sound());
        assert!(record.result.is_ok());
        let creates: Vec<usize> = record
            .lines
            .iter()
            .enumerate()
            .filter(|(_, line)| line.starts_with("\"zpool\" \"create\""))
            .map(|(at, _)| at)
            .collect();
        assert_eq!(creates.len(), 1);
        let at = creates[0];
        assert_eq!(record.lines[at], POOL_CREATE);
        let disk_tools = ["wipefs", "sgdisk", "partprobe", "mkfs.vfat", "mkswap"];
        for line in &record.lines[..at] {
            assert!(disk_tools.iter().any(|tool| line.starts_with(&format!("\"{}\"", tool))));
        }
        assert_eq!(at, 2 * 13);
        for device in ["/dev/sda", "/dev/sdb"] {
            let wiped = format!("\"wipefs\" \"-a\" \"{}\"", device);
            assert_eq!(record.lines[..at].iter().filter(|line| **line == wiped).count(), 1);
        }
        for line in &record.lines[at + 1..at + 13] {
            assert!(line.starts_with("\"zfs\" \"create\""), "{}", line);
        }
        assert!(record.lines[at + 13..].iter().all(|line| !line.starts_with("\"zfs\" \"create\"")));
    }
}

#[test]
fn an_existing_system_goes_through_migration_too() {
    let mut config = mirror(true);
    config.mode = InstallMode::Existing;
    let record = run(config, &System::sound());
    assert!(record.result.is_ok());
    assert_eq!(
        record.phases,
        vec![
            Phase::Validate,
            Phase::PrepareDisks,
            Phase::CreateZfs,
            Phase::MountFilesystem,
            Phase::MigrateSystem,
            Phase::InstallBootloader,
            Phase::Finalize,
        ]
    );
    let numbers: Vec<u8> = record.phases.iter().map(|phase| phase.number()).collect();
    assert_eq!(numbers, vec![1, 2, 3, 4, 5, 6, 7]);
    assert_eq!(record.lines, run(mirror(true), &System::sound()).lines);
}

#[test]
fn the_steps_of_a_dry_run_in_order() {
    let mut config = mirror(true);
    config.devices.pop();
    config.raid_level = RaidLevel::NoRedundancy;
    config.swap_size = 0;
    config.efi_size = 512 * MIB;
    config.ashift = Some(12);
    let record = run(config, &System::sound());
    assert!(record.result.is_ok());
    let expected = vec![
        "\"wipefs\" \"-a\" \"/dev/sda\"",
        "\"sgdisk\" \"--zap-all\" \"/dev/sda\"",
        "\"partprobe\" \"/dev/sda\"",
        "\"sgdisk\" \"--clear\" \"/dev/sda\"",
        "\"partprobe\" \"/dev/sda\"",
        "\"sgdisk\" \"/dev/sda\" \"--new=1:1MiB:+512MiB\" \"--typecode=1:EF00\" \"--change-name=1:EFI\"",
        "\"partprobe\" \"/dev/sda\"",
        "\"sgdisk\" \"/dev/sda\" \"--new=2:0:0\" \"--typecode=2:BF00\" \"--change-name=2:zfs\"",
        "\"partprobe\" \"/dev/sda\"",
        "\"mkfs.vfat\" \"-F32\" \"-n\" \"EFI\" \"/dev/sda1\"",
        "\"zpool\" \"create\" \"-f\" \"-m\" \"none\" \"-o\" \"ashift=12\" \"-O\" \"acltype=posixacl\" \"-O\" \"xattr=sa\" \"-O\" \"dnodesize=auto\" \"-O\" \"compression=zstd\" \"-O\" \"normalization=formD\" \"-O\" \"relatime=on\" \"zroot\" \"/dev/sda2\"",
    ];
    assert_eq!(&record.lines[..expected.len()], &expected[..]);
    let rest: Vec<&str> = record.lines[expected.len() + 12..].iter().map(|s| s.as_str()).collect();
    assert_eq!(
        rest,
        vec![
            "mkdir /mnt/boot/efi",
            "mkdir /mnt/boot/efi/EFI/ZBM",
            "\"curl\" \"-L\" \"-o\" \"/tmp/zfsbootmenu-v2.3.0.EFI\" \"https://get.zfsbootmenu.org/efi/zfsbootmenu-release-x86_64-v2.3.0.EFI\"",
            "copy /tmp/zfsbootmenu-v2.3.0.EFI /mnt/boot/efi/EFI/ZBM/zfsbootmenu.EFI",
            "mkdir /etc/zfsbootmenu",
            "write /etc/zfsbootmenu/config.yaml",
            "mkdir /etc/dracut.conf.d",
            "write /etc/dracut.conf.d/zfsbootmenu.conf",
            "\"dracut\" \"--force\" \"--add\" \"zfsbootmenu\" \"/mnt/boot/efi/EFI/ZBM/vmlinuz.efi\"",
            "\"bootctl\" \"--path\" \"/mnt/boot/efi\" \"install\"",
            "mkdir /mnt/boot/efi/loader/entries",
            "write /mnt/boot/efi/loader/loader.conf",
            "write /mnt/boot/efi/loader/entries/zfsbootmenu.conf",
            "\"zpool\" \"set\" \"bootfs=zroot/ROOT/default\" \"zroot\"",
            "\"zfs\" \"snapshot\" \"zroot/ROOT/default@initial\"",
            "\"sync\"",
        ]
    );
}

#[test]
fn two_dry_runs_give_the_same_lines() {
    let first = run(mirror(true), &System::sound());
    let second = run(mirror(true), &System::sound());
    assert!(first.result.is_ok() && second.result.is_ok());
    assert_eq!(first.lines, second.lines);
    assert_eq!(first.phases, second.phases);
    assert!(!first.lines.is_empty());

    let mut broken = System::sound();
    broken.failing = Some("zpool");
    let third = run(mirror(true), &broken);
    assert!(third.result.is_ok());
    assert_eq!(first.lines, third.lines);
}

#[test]
fn a_real_run_performs_what_a_dry_run_shows_and_mounts() {
    let dry = run(mirror(true), &System::sound());
    let real = run(mirror(false), &System::sound());
    assert!(real.result.is_ok());
    assert_eq!(real.simulated, 0);
    assert_eq!(real.performed, dry.lines.len() + 1);
    let mount = "\"zfs\" \"mount\" \"zroot/ROOT/default\"".to_string();
    assert!(real.lines.contains(&mount));
    assert!(!dry.lines.contains(&mount));
    let without: Vec<&String> = real.lines.iter().filter(|line| **line != mount).collect();
    assert_eq!(without, dry.lines.iter().collect::<Vec<_>>());
}

#[test]
fn one_device_for_a_mirror_is_refused_before_anything_is_done() {
    let mut config = mirror(true);
    config.devices.pop();
    match Installer::new(config, true) {
        Err(InstallerError::ValidationError(msg)) => assert_eq!(
            msg,
            "RAID level mirror requires at least 2 device(s), but only 1 provided"
        ),
        other => panic!("expected a validation error, got {:?}", other.map(|_| ())),
    }
}

#[test]
fn a_small_efi_partition_is_refused() {
    let mut config = mirror(true);
    config.efi_size = 99 * MIB;
    match Installer::new(config, true) {
        Err(InstallerError::ValidationError(msg)) => {
            assert_eq!(msg, "EFI partition must be at least 100MB")
        }
        other => panic!("expected a validation error, got {:?}", other.map(|_| ())),
    }
}

#[test]
fn an_existing_system_needs_its_source_root() {
    let mut config = mirror(true);
    config.mode = InstallMode::Existing;
    config.source_root = "/old".to_string();
    match Installer::new(config.clone(), false) {
        Err(InstallerError::ValidationError(msg)) => {
            assert_eq!(msg, "Source root does not exist: /old")
        }
        other => panic!("expected a validation error, got {:?}", other.map(|_| ())),
    }
    assert!(Installer::new(config, true).is_ok());
}

#[test]
fn failed_checks_end_the_run_before_any_step() {
    let mut system = System::sound();
    system.root = false;
    let record = run(mirror(false), &system);
    match record.result {
        Err(InstallerError::ValidationError(msg)) => assert_eq!(msg, "Pre-flight checks failed"),
        other => panic!("expected a validation error, got {:?}", other),
    }
    assert_eq!(record.phases, vec![Phase::Validate]);
    assert!(record.lines.is_empty());
}

#[test]
fn the_report_of_the_checks_is_kept() {
    let mut installer = Installer::new(mirror(true), true).unwrap();
    assert!(installer.report().is_none());
    assert!(matches!(installer.install(Event::Proceed), Action::Announce(Phase::Validate)));
    assert!(matches!(installer.install(Event::Proceed), Action::GatherFacts));
    let mut system = System::sound();
    system.root = false;
    let facts = system.facts(installer.config());
    assert!(matches!(installer.install(Event::Facts(facts)), Action::Abort(_)));
    let report = installer.report().as_ref().unwrap();
    assert_eq!(report.errors, vec!["This program must be run as root"]);
}

#[test]
fn checks_can_be_skipped() {
    let mut system = System::sound();
    system.root = false;
    let mut config = mirror(true);
    config.skip_preflight = true;
    let record = run(config, &system);
    assert!(record.result.is_ok());
    assert_eq!(record.phases[..2], [Phase::Validate, Phase::PrepareDisks]);
    assert_eq!(record.lines, run(mirror(true), &System::sound()).lines);
}

#[test]
fn the_first_failure_ends_the_run_and_nothing_is_undone() {
    let mut system = System::sound();
    system.failing = Some("mkfs.vfat");
    let record = run(mirror(false), &system);
    match record.result {
        Err(InstallerError::CommandFailed { cmd, code, stderr }) => {
            assert_eq!(cmd, "\"mkfs.vfat\" \"-F32\" \"-n\" \"EFI\" \"/dev/sda1\"");
            assert_eq!(code, 1);
            assert_eq!(stderr, "it broke");
        }
        other => panic!("expected a failed command, got {:?}", other),
    }
    assert_eq!(record.phases, vec![Phase::Validate, Phase::PrepareDisks]);
    assert_eq!(record.lines.len(), 12);
    assert!(record.lines.iter().all(|line| !line.contains("/dev/sdb")));
    assert!(record.lines.iter().all(|line| !line.contains("wipefs") || line.contains("/dev/sda")));
}

#[test]
fn a_second_device_that_is_gone_leaves_the_first_partitioned() {
    let mut config = mirror(false);
    config.skip_preflight = true;
    config.devices[1] = "/dev/sdq".to_string();
    let record = run(config, &System::sound());
    match record.result {
        Err(InstallerError::DeviceNotFound(path)) => assert_eq!(path, "/dev/sdq"),
        other => panic!("expected a missing device, got {:?}", other),
    }
    assert_eq!(record.performed, 13);
    assert_eq!(record.lines[0], "\"wipefs\" \"-a\" \"/dev/sda\"");
    assert_eq!(record.lines[12], "\"mkswap\" \"/dev/sda2\"");
}

#[test]
fn a_failing_pool_is_a_zfs_error() {
    let mut system = System::sound();
    system.failing = Some("zpool");
    let record = run(mirror(false), &system);
    match record.result {
        Err(InstallerError::ZfsError { operation, details }) => {
            assert_eq!(operation, POOL_CREATE);
            assert_eq!(details, "it broke");
        }
        other => panic!("expected a ZFS error, got {:?}", other),
    }
    assert_eq!(record.phases.last(), Some(&Phase::CreateZfs));
}

#[test]
fn a_failing_registration_is_tolerated_and_a_failing_generator_is_not() {
    let mut system = System::sound();
    system.failing = Some("bootctl");
    let record = run(mirror(false), &system);
    assert!(record.result.is_ok());
    assert_eq!(record.phases.last(), Some(&Phase::Finalize));

    system.failing = Some("dracut");
    let record = run(mirror(false), &system);
    match record.result {
        Err(InstallerError::BootloaderError(msg)) => {
            assert!(msg.starts_with("Command failed: \"dracut\" "), "{}", msg);
            assert!(msg.ends_with("\nit broke"), "{}", msg);
        }
        other => panic!("expected a bootloader error, got {:?}", other),
    }
    assert_eq!(record.phases.last(), Some(&Phase::InstallBootloader));
    assert!(!record.lines.iter().any(|line| line.contains("bootctl")));
}

#[test]
fn without_a_generator_the_boot_chain_fails_after_the_download() {
    let mut system = System::sound();
    system.dracut = false;
    let record = run(mirror(true), &system);
    match record.result {
        Err(InstallerError::BootloaderError(msg)) => {
            assert_eq!(msg, "No supported initramfs generator found (dracut or mkinitcpio)")
        }
        other => panic!("expected a bootloader error, got {:?}", other),
    }
    assert_eq!(record.lines.last().map(|s| s.as_str()), Some("write /etc/zfsbootmenu/config.yaml"));
}

#[test]
fn without_a_generator_the_pool_was_still_created_once() {
    let mut system = System::sound();
    system.dracut = false;
    for dry_run in [true, false] {
        let record = run(mirror(dry_run), &system);
        assert!(matches!(record.result, Err(InstallerError::BootloaderError(_))));
        assert_eq!(
            record.phases,
            vec![
                Phase::Validate,
                Phase::PrepareDisks,
                Phase::CreateZfs,
                Phase::MountFilesystem,
                Phase::InstallBootloader,
            ]
        );
        let creates: Vec<usize> = record
            .lines
            .iter()
            .enumerate()
            .filter(|(_, line)| line.starts_with("\"zpool\" \"create\""))
            .map(|(at, _)| at)
            .collect();
        assert_eq!(creates, vec![2 * 13]);
        assert_eq!(record.lines[creates[0]], POOL_CREATE);
    }
}

#[test]
fn nvme_devices_get_their_partitions_behind_a_p() {
    let mut config = mirror(true);
    config.devices = vec!["/dev/nvme0n1".to_string(), "/dev/sdb".to_string()];
    let record = run(config, &System::sound());
    assert!(record.result.is_ok());
    assert!(record.lines.contains(&"\"mkfs.vfat\" \"-F32\" \"-n\" \"EFI\" \"/dev/nvme0n1p1\"".to_string()));
    assert!(record.lines.contains(&"\"mkswap\" \"/dev/nvme0n1p2\"".to_string()));
    assert!(record
        .lines
        .iter()
        .any(|line| line.ends_with("\"zroot\" \"mirror\" \"/dev/nvme0n1p3\" \"/dev/sdb3\"")));
}

#[test]
fn an_event_that_answers_nothing_ends_the_run() {
    let mut installer = Installer::new(mirror(true), true).unwrap();
    assert_eq!(installer.progress(), Progress::Idle);
    assert_eq!(installer.phase(), Phase::Validate);
    match installer.install(Event::Outcome(Outcome::Done)) {
        Action::Abort(InstallerError::Other(msg)) => assert_eq!(msg, "Unexpected event"),
        other => panic!("expected an abort, got {:?}", other),
    }
    match installer.install(Event::Proceed) {
        Action::Abort(InstallerError::Other(msg)) => assert_eq!(msg, "Installation was aborted"),
        other => panic!("expected an abort, got {:?}", other),
    }
}

#[test]
fn phases_have_their_titles() {
    assert_eq!(Phase::Validate.title(), "Validation");
    assert_eq!(Phase::PrepareDisks.title(), "Preparing disks");
    assert_eq!(Phase::CreateZfs.title(), "Creating ZFS pool");
    assert_eq!(Phase::MountFilesystem.title(), "Mounting filesystem");
    assert_eq!(Phase::MigrateSystem.title(), "Migrating existing system");
    assert_eq!(Phase::InstallBootloader.title(), "Installing bootloader");
    assert_eq!(Phase::Finalize.title(), "Finalizing");
    assert_eq!(Phase::MigrateSystem.caution(), Some("System migration not yet implemented"));
    assert_eq!(Phase::Finalize.caution(), None);
    assert_eq!(Phase::MountFilesystem.next(InstallMode::New), Some(Phase::InstallBootloader));
    assert_eq!(Phase::MountFilesystem.next(InstallMode::Existing), Some(Phase::MigrateSystem));
    assert_eq!(Phase::Finalize.next(InstallMode::New), None);
}
