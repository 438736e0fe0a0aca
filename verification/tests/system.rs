use zbm_installer::command::{CommandOutput, FailurePolicy, Operation, Outcome, Step};
use zbm_installer::system::distro::{distro_named_in, ReleaseMarkers};
use zbm_installer::system::{get_system_memory_kb, is_root, is_uefi, sync, Distro, PackageInstaller};
use zbm_installer::InstallerError;

const MEMINFO: &str = "MemTotal:       16384256 kB\nMemFree:         1234567 kB\nMemAvailable:    9876543 kB\n";

fn no_markers() -> ReleaseMarkers {
    ReleaseMarkers { fedora: false, debian: false, arch: false }
}

fn lines(steps: &[Step]) -> Vec<String> {
    steps
        .iter()
        .map(|step| match &step.operation {
            Operation::Run { command, policy } => {
                assert_eq!(*policy, FailurePolicy::Package);
                command.line()
            }
            other => panic!("expected a command, got {:?}", other),
        })
        .collect()
}

fn exited(code: i32) -> Outcome {
    Outcome::Exited(CommandOutput { code: Some(code), stdout: String::new(), stderr: String::new() })
}

#[test]
fn test_distro_detection() {
    let distro = Distro::detect(Some("NAME=\"Fedora Linux\"\nID=fedora\n"), no_markers());
    assert!(distro.is_ok());
}

#[test]
fn test_distro_package_managers() {
    assert_eq!(Distro::Fedora.package_manager(), "dnf");
    assert_eq!(Distro::Debian.package_manager(), "apt-get");
    assert_eq!(Distro::Arch.package_manager(), "pacman");
}

#[test]
fn test_distro_supported() {
    assert!(Distro::Fedora.is_supported());
    assert!(Distro::Debian.is_supported());
    assert!(!Distro::Unknown.is_supported());
}

#[test]
fn test_zfs_packages() {
    let fedora_packages = Distro::Fedora.zfs_packages();
    assert!(fedora_packages.contains(&"zfs"));

    let debian_packages = Distro::Debian.zfs_packages();
    assert!(debian_packages.contains(&"zfsutils-linux"));
}

#[test]
fn test_is_uefi() {
    // This will vary by system, just test it doesn't panic
    let _ = is_uefi();
}

#[test]
fn the_probes_answer_the_same_when_asked_again() {
    assert_eq!(is_uefi(), is_uefi());
    assert_eq!(is_root(), is_root());
}

#[test]
fn test_get_system_memory() {
    let result = get_system_memory_kb(&Ok(MEMINFO.to_string()));
    assert!(result.is_ok());
    if let Ok(mem) = result {
        assert!(mem > 0);
    }
}

#[test]
fn test_package_installer_creation() {
    let distro = Distro::detect(Some("ID=debian\n"), no_markers()).unwrap();
    let result = PackageInstaller::new(distro, true);
    // May fail on unsupported distros, which is expected
    if result.is_ok() {
        let installer = result.unwrap();
        assert!(installer.dry_run);
    }
}

#[test]
fn the_release_file_names_the_distribution() {
    let detect = |text: &str| Distro::detect(Some(text), no_markers()).unwrap();
    assert_eq!(detect("NAME=\"Fedora Linux\"\nID=fedora\nVERSION_ID=40\n"), Distro::Fedora);
    assert_eq!(detect("ID=debian"), Distro::Debian);
    assert_eq!(detect("ID=\"ubuntu\"\n"), Distro::Ubuntu);
    assert_eq!(detect("PRETTY_NAME=MX\r\nID=mx\r\n"), Distro::MxLinux);
    assert_eq!(detect("ID=arch\nID=fedora\n"), Distro::Arch);
    assert_eq!(detect("ID=ID=\"\"arch\"\n"), Distro::Arch);
    assert_eq!(detect("ID=gentoo\n"), Distro::Unknown);
    assert_eq!(detect("ID=Fedora\n"), Distro::Unknown);
    assert_eq!(detect("ID=\n"), Distro::Unknown);
    assert_eq!(distro_named_in("ID_LIKE=debian\nNAME=x\n"), None);
    assert_eq!(distro_named_in(" ID=debian\n"), None);
    assert_eq!(distro_named_in(""), None);
}

#[test]
fn marker_files_decide_where_the_release_file_does_not() {
    let markers = |fedora, debian, arch| ReleaseMarkers { fedora, debian, arch };
    assert_eq!(Distro::detect(None, markers(true, true, true)).unwrap(), Distro::Fedora);
    assert_eq!(Distro::detect(None, markers(false, true, true)).unwrap(), Distro::Debian);
    assert_eq!(Distro::detect(None, markers(false, false, true)).unwrap(), Distro::Arch);
    assert_eq!(Distro::detect(None, no_markers()).unwrap(), Distro::Unknown);
    assert_eq!(
        Distro::detect(Some("NAME=x\n"), markers(false, true, false)).unwrap(),
        Distro::Debian
    );
    assert_eq!(
        Distro::detect(Some("ID=gentoo\n"), markers(true, false, false)).unwrap(),
        Distro::Unknown
    );
}

#[test]
fn names_and_managers_of_all_distributions() {
    assert_eq!(Distro::Fedora.to_string(), "Fedora");
    assert_eq!(Distro::Debian.to_string(), "Debian");
    assert_eq!(Distro::Ubuntu.to_string(), "Ubuntu");
    assert_eq!(Distro::MxLinux.to_string(), "MX Linux");
    assert_eq!(Distro::Arch.to_string(), "Arch Linux");
    assert_eq!(Distro::Unknown.to_string(), "Unknown");
    assert_eq!(Distro::Ubuntu.package_manager(), "apt-get");
    assert_eq!(Distro::MxLinux.package_manager(), "apt-get");
    assert_eq!(Distro::Unknown.package_manager(), "unknown");
    assert!(Distro::Ubuntu.is_supported() && Distro::MxLinux.is_supported());
    assert!(Distro::Arch.is_supported());
}

#[test]
fn packages_by_distribution() {
    assert_eq!(Distro::Fedora.zfs_packages(), vec!["zfs"]);
    assert_eq!(Distro::Ubuntu.zfs_packages(), vec!["zfsutils-linux", "zfs-dkms"]);
    assert_eq!(Distro::Arch.zfs_packages(), vec!["zfs-linux", "zfs-utils"]);
    assert!(Distro::Unknown.zfs_packages().is_empty());
    assert_eq!(
        Distro::Fedora.zbm_packages(),
        vec!["kernel-devel", "dracut", "efibootmgr", "gdisk", "util-linux"]
    );
    assert_eq!(
        Distro::MxLinux.zbm_packages(),
        vec!["dracut-core", "efibootmgr", "gdisk", "util-linux"]
    );
    assert_eq!(
        Distro::Arch.zbm_packages(),
        vec!["dracut", "efibootmgr", "gptfdisk", "util-linux"]
    );
    assert!(Distro::Unknown.zbm_packages().is_empty());
}

#[test]
fn install_commands_by_distribution() {
    assert_eq!(Distro::Fedora.install_command(&["zfs"]), vec!["dnf", "install", "-y", "zfs"]);
    assert_eq!(
        Distro::Debian.install_command(&["a", "b"]),
        vec!["apt-get", "install", "-y", "a", "b"]
    );
    assert_eq!(Distro::Arch.install_command(&["a"]), vec!["pacman", "-S", "--noconfirm", "a"]);
    assert_eq!(Distro::Unknown.install_command(&["a"]), vec!["unknown", "a"]);
    assert_eq!(Distro::Arch.install_command(&[]), vec!["pacman", "-S", "--noconfirm"]);
}

#[test]
fn there_is_no_installer_for_an_unknown_distribution() {
    match PackageInstaller::new(Distro::Unknown, false) {
        Err(InstallerError::Unsupported(msg)) => {
            assert_eq!(msg, "Distribution Unknown is not supported")
        }
        other => panic!("expected an unsupported distribution, got {:?}", other),
    }
    let installer = PackageInstaller::new(Distro::Arch, false).unwrap();
    assert_eq!(installer.distro, Distro::Arch);
    assert!(!installer.dry_run);
}

#[test]
fn packages_are_installed_by_one_command() {
    let fedora = PackageInstaller::new(Distro::Fedora, true).unwrap();
    let steps = fedora.install_zfs();
    assert_eq!(lines(&steps), vec!["\"dnf\" \"install\" \"-y\" \"zfs\""]);
    assert!(steps[0].simulated);
    assert!(fedora.install(&[]).is_empty());
    assert!(fedora.update().is_empty());

    let debian = PackageInstaller::new(Distro::Debian, false).unwrap();
    assert_eq!(lines(&debian.update()), vec!["\"apt-get\" \"update\""]);
    assert_eq!(
        lines(&debian.install_zbm_deps()),
        vec!["\"apt-get\" \"install\" \"-y\" \"dracut-core\" \"efibootmgr\" \"gdisk\" \"util-linux\""]
    );
    let arch = PackageInstaller::new(Distro::Arch, false).unwrap();
    assert_eq!(lines(&arch.update()), vec!["\"pacman\" \"-Sy\""]);
    assert_eq!(
        lines(&arch.install(&["zfs-linux"])),
        vec!["\"pacman\" \"-S\" \"--noconfirm\" \"zfs-linux\""]
    );
}

#[test]
fn a_package_is_installed_when_its_query_succeeds() {
    let fedora = PackageInstaller::new(Distro::Fedora, false).unwrap();
    assert_eq!(fedora.query_command("zfs").unwrap().line(), "\"rpm\" \"-q\" \"zfs\"");
    let ubuntu = PackageInstaller::new(Distro::Ubuntu, false).unwrap();
    assert_eq!(ubuntu.query_command("zfs").unwrap().line(), "\"dpkg\" \"-s\" \"zfs\"");
    let arch = PackageInstaller::new(Distro::Arch, false).unwrap();
    assert_eq!(arch.query_command("zfs").unwrap().line(), "\"pacman\" \"-Q\" \"zfs\"");
    assert!(arch.is_installed(&exited(0)));
    assert!(!arch.is_installed(&exited(1)));
    assert!(!arch.is_installed(&Outcome::Failed("gone".to_string())));
    let unknown = PackageInstaller { distro: Distro::Unknown, dry_run: false };
    assert!(unknown.query_command("zfs").is_none());
    assert!(!unknown.is_installed(&exited(0)));
}

#[test]
fn memory_is_read_from_the_first_total() {
    assert_eq!(get_system_memory_kb(&Ok(MEMINFO.to_string())).ok(), Some(16384256));
    assert_eq!(
        get_system_memory_kb(&Ok("MemFree: 5 kB\nMemTotal:\nMemTotal: 7 kB\nMemTotal: 9 kB".to_string())).ok(),
        Some(7)
    );
    assert_eq!(get_system_memory_kb(&Ok("MemFree: 5 kB\n".to_string())).ok(), Some(0));
    assert_eq!(get_system_memory_kb(&Ok(String::new())).ok(), Some(0));
    assert_eq!(get_system_memory_kb(&Ok(" MemTotal: 7 kB\n".to_string())).ok(), Some(0));
}

#[test]
fn a_memory_table_that_cannot_be_had_is_an_error() {
    match get_system_memory_kb(&Ok("MemTotal: lots kB\n".to_string())) {
        Err(InstallerError::ParseError(msg)) => assert_eq!(msg, "invalid digit found in string"),
        other => panic!("expected a parse error, got {:?}", other),
    }
    match get_system_memory_kb(&Err("permission denied".to_string())) {
        Err(InstallerError::Io(msg)) => assert_eq!(msg, "permission denied"),
        other => panic!("expected an I/O error, got {:?}", other),
    }
}

#[test]
fn sync_tolerates_its_exit_status() {
    let step = sync(false);
    assert!(!step.simulated);
    match &step.operation {
        Operation::Run { command, policy } => {
            assert_eq!(command.line(), "\"sync\"");
            assert_eq!(*policy, FailurePolicy::Tolerate);
        }
        other => panic!("expected a command, got {:?}", other),
    }
    assert!(step.settle(&exited(1)).is_ok());
    assert!(sync(true).simulated);
}
