use zbm_installer::bootloader::{InitramfsTools, SystemdBoot, ZbmInstaller};
use zbm_installer::command::{CommandOutput, FailurePolicy, Operation, Outcome, Step};
use zbm_installer::InstallerError;

fn shown(step: &Step) -> String {
    match &step.operation {
        Operation::Run { command, .. } => format!("run {}", command.line()),
        Operation::CreateDirectory { path } => format!("mkdir {}", path),
        Operation::WriteFile { path, .. } => format!("write {}", path),
        Operation::CopyFile { from, to } => format!("copy {} {}", from, to),
    }
}

fn content(step: &Step) -> &str {
    match &step.operation {
        Operation::WriteFile { content, .. } => content,
        other => panic!("expected a file, got {:?}", other),
    }
}

fn tools(dracut: bool, mkinitcpio: bool, generate_zbm: bool) -> InitramfsTools {
    InitramfsTools { dracut, mkinitcpio, generate_zbm }
}

fn failed(code: i32, stderr: &str) -> Outcome {
    Outcome::Exited(CommandOutput {
        code: Some(code),
        stdout: String::new(),
        stderr: stderr.to_string(),
    })
}

#[test]
fn test_systemd_boot_creation() {
    let systemd_boot = SystemdBoot::new("/boot/efi".to_string(), true);
    assert!(systemd_boot.dry_run);
}

#[test]
fn test_zbm_installer_creation() {
    let installer = ZbmInstaller::new("zroot".to_string(), "/boot/efi".to_string(), true);

    assert_eq!(installer.pool_name, "zroot");
    assert!(installer.dry_run);
}

#[test]
fn systemd_boot_is_registered_and_configured() {
    let steps = SystemdBoot::new("/mnt/boot/efi".to_string(), false).install();
    let text: Vec<String> = steps.iter().map(shown).collect();
    assert_eq!(
        text,
        vec![
            "run \"bootctl\" \"--path\" \"/mnt/boot/efi\" \"install\"",
            "mkdir /mnt/boot/efi/loader/entries",
            "write /mnt/boot/efi/loader/loader.conf",
            "write /mnt/boot/efi/loader/entries/zfsbootmenu.conf",
        ]
    );
    assert_eq!(
        content(&steps[2]),
        "default zfsbootmenu.conf\ntimeout 3\nconsole-mode max\neditor no\n"
    );
    assert_eq!(content(&steps[3]), "title ZFSBootMenu\nefi /EFI/ZBM/zfsbootmenu.EFI\n");
    assert!(steps.iter().all(|step| !step.simulated));
}

#[test]
fn a_failed_registration_does_not_end_the_installation() {
    let steps = SystemdBoot::new("/mnt/boot/efi".to_string(), false).install();
    assert!(matches!(
        steps[0].operation,
        Operation::Run { policy: FailurePolicy::Tolerate, .. }
    ));
    assert!(steps[0].settle(&failed(1, "not booted with EFI")).is_ok());
    match steps[0].settle(&Outcome::Failed("No such file or directory".to_string())) {
        Err(InstallerError::Io(msg)) => assert_eq!(msg, "No such file or directory"),
        other => panic!("expected an I/O error, got {:?}", other),
    }
    match steps[2].settle(&Outcome::Failed("read-only file system".to_string())) {
        Err(InstallerError::Io(msg)) => assert_eq!(msg, "read-only file system"),
        other => panic!("expected an I/O error, got {:?}", other),
    }
}

#[test]
fn zfsbootmenu_is_installed_with_dracut() {
    let installer = ZbmInstaller::new("zroot".to_string(), "/mnt/boot/efi".to_string(), true);
    let plan = installer.install(tools(true, true, false));
    assert!(plan.failure.is_none());
    let text: Vec<String> = plan.steps.iter().map(shown).collect();
    assert_eq!(
        text,
        vec![
            "mkdir /mnt/boot/efi/EFI/ZBM",
            "run \"curl\" \"-L\" \"-o\" \"/tmp/zfsbootmenu-v2.3.0.EFI\" \"https://get.zfsbootmenu.org/efi/zfsbootmenu-release-x86_64-v2.3.0.EFI\"",
            "copy /tmp/zfsbootmenu-v2.3.0.EFI /mnt/boot/efi/EFI/ZBM/zfsbootmenu.EFI",
            "mkdir /etc/zfsbootmenu",
            "write /etc/zfsbootmenu/config.yaml",
            "mkdir /etc/dracut.conf.d",
            "write /etc/dracut.conf.d/zfsbootmenu.conf",
            "run \"dracut\" \"--force\" \"--add\" \"zfsbootmenu\" \"/mnt/boot/efi/EFI/ZBM/vmlinuz.efi\"",
        ]
    );
    assert!(plan.steps.iter().all(|step| step.simulated));
    assert_eq!(
        content(&plan.steps[6]),
        "# ZFSBootMenu dracut configuration\nadd_dracutmodules+=\" zfsbootmenu \"\nomit_dracutmodules+=\" network \"\nhostonly=no\ncompress=\"zstd\"\n"
    );
}

#[test]
fn the_configuration_names_the_mount_point_three_times() {
    let installer = ZbmInstaller::new("zroot".to_string(), "/boot/efi".to_string(), false);
    let steps = installer.generate_config();
    assert_eq!(
        content(&steps[1]),
        "# ZFSBootMenu configuration\n\
Global:\n  ManageImages: true\n  BootMountPoint: /boot/efi\n  DracutConfDir: /etc/zfsbootmenu/dracut.conf.d\n  PreHooksDir: /etc/zfsbootmenu/hooks.d\n  InitCPIOHookDirs: /etc/zfsbootmenu/initcpio.d\n\n\
Components:\n  Enabled: true\n  ImageDir: /boot/efi/EFI/ZBM\n  Versions: 3\n  Cmdline: ro quiet loglevel=0\n\n\
EFI:\n  ImageDir: /boot/efi/EFI/ZBM\n  Versions: false\n  Enabled: true\n\n\
Kernel:\n  CommandLine: ro quiet loglevel=4\n"
    );
}

#[test]
fn generate_zbm_is_preferred_to_dracut_itself() {
    let installer = ZbmInstaller::new("zroot".to_string(), "/mnt/boot/efi".to_string(), false);
    let steps = installer.generate_initramfs(tools(true, false, true)).unwrap();
    assert_eq!(shown(&steps[2]), "run \"generate-zbm\"");
    assert_eq!(shown(&installer.generate_dracut(true)[2]), "run \"generate-zbm\"");
}

#[test]
fn mkinitcpio_is_used_where_dracut_is_missing() {
    let installer = ZbmInstaller::new("zroot".to_string(), "/mnt/boot/efi".to_string(), false);
    let steps = installer.generate_initramfs(tools(false, true, true)).unwrap();
    let text: Vec<String> = steps.iter().map(shown).collect();
    assert_eq!(
        text,
        vec!["write /etc/mkinitcpio.conf.d/zfsbootmenu.conf", "run \"mkinitcpio\" \"-P\""]
    );
    assert_eq!(
        content(&steps[0]),
        "# ZFSBootMenu mkinitcpio configuration\nHOOKS=(base udev autodetect modconf block filesystems keyboard fsck zfsbootmenu)\n"
    );
}

#[test]
fn without_a_generator_the_plan_ends_in_an_error() {
    let installer = ZbmInstaller::new("zroot".to_string(), "/mnt/boot/efi".to_string(), false);
    match installer.generate_initramfs(tools(false, false, true)) {
        Err(InstallerError::BootloaderError(msg)) => {
            assert_eq!(msg, "No supported initramfs generator found (dracut or mkinitcpio)")
        }
        other => panic!("expected a bootloader error, got {:?}", other),
    }
    let plan = installer.install(tools(false, false, false));
    assert_eq!(plan.steps.len(), 5);
    assert!(matches!(plan.failure, Some(InstallerError::BootloaderError(_))));
}

#[test]
fn a_failed_download_is_a_bootloader_error() {
    let installer = ZbmInstaller::new("zroot".to_string(), "/mnt/boot/efi".to_string(), false);
    let (step, file) = installer.download_zbm("3.0.1");
    assert_eq!(file, "/tmp/zfsbootmenu-v3.0.1.EFI");
    match step.settle(&failed(22, "404")) {
        Err(InstallerError::BootloaderError(msg)) => assert_eq!(
            msg,
            "Command failed: \"curl\" \"-L\" \"-o\" \"/tmp/zfsbootmenu-v3.0.1.EFI\" \"https://get.zfsbootmenu.org/efi/zfsbootmenu-release-x86_64-v3.0.1.EFI\"\n404"
        ),
        other => panic!("expected a bootloader error, got {:?}", other),
    }
}
