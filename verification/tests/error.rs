use zbm_installer::InstallerError;

#[test]
fn test_error_creation() {
    let err = InstallerError::validation("test");
    assert!(matches!(err, InstallerError::ValidationError(_)));
    assert!(err.is_recoverable());
}

#[test]
fn test_device_not_found() {
    let err = InstallerError::DeviceNotFound("/dev/sda".to_string());
    assert!(err.to_string().contains("/dev/sda"));
}

#[test]
fn test_command_failed() {
    let err = InstallerError::CommandFailed {
        cmd: "zpool create".to_string(),
        code: 1,
        stderr: "pool already exists".to_string(),
    };
    assert!(err.to_string().contains("zpool create"));
}

#[test]
fn every_kind_has_its_message() {
    let path = || "/dev/sda".to_string();
    let text = || "why".to_string();
    assert_eq!(InstallerError::DeviceNotFound(path()).to_string(), "Device not found: /dev/sda");
    assert_eq!(
        InstallerError::DeviceInUse(path()).to_string(),
        "Device /dev/sda is currently in use (mounted or part of active pool)"
    );
    assert_eq!(
        InstallerError::InvalidDevice { path: path(), reason: text() }.to_string(),
        "Invalid device /dev/sda: why"
    );
    assert_eq!(
        InstallerError::zfs("zpool create", "no such device").to_string(),
        "ZFS operation failed: zpool create\nDetails: no such device"
    );
    assert_eq!(
        InstallerError::disk("sgdisk", "busy").to_string(),
        "Disk operation failed: sgdisk\nDetails: busy"
    );
    assert_eq!(
        InstallerError::BootloaderError(text()).to_string(),
        "Bootloader operation failed: why"
    );
    assert_eq!(InstallerError::validation("why").to_string(), "Validation failed: why");
    assert_eq!(InstallerError::config("why").to_string(), "Configuration error: why");
    assert_eq!(InstallerError::UiError(text()).to_string(), "UI error: why");
    assert_eq!(
        InstallerError::PermissionDenied(text()).to_string(),
        "Insufficient permissions: why. This program must be run as root."
    );
    assert_eq!(InstallerError::SystemError(text()).to_string(), "System error: why");
    assert_eq!(InstallerError::Io(text()).to_string(), "I/O error: why");
    assert_eq!(InstallerError::ParseError(text()).to_string(), "Parse error: why");
    assert_eq!(InstallerError::Unsupported(text()).to_string(), "Unsupported: why");
    assert_eq!(InstallerError::Other(text()).to_string(), "why");
}

#[test]
fn command_failure_shows_the_exit_code() {
    let failed = |code: i32| InstallerError::CommandFailed {
        cmd: "zpool create".to_string(),
        code,
        stderr: "pool already exists".to_string(),
    };
    assert_eq!(
        failed(1).to_string(),
        "Command 'zpool create' failed with exit code 1: pool already exists"
    );
    assert_eq!(
        failed(-1).to_string(),
        "Command 'zpool create' failed with exit code -1: pool already exists"
    );
    assert_eq!(
        failed(i32::MIN).to_string(),
        "Command 'zpool create' failed with exit code -2147483648: pool already exists"
    );
    assert_eq!(
        failed(0).to_string(),
        "Command 'zpool create' failed with exit code 0: pool already exists"
    );
}

#[test]
fn only_input_errors_are_recoverable() {
    assert!(InstallerError::config("x").is_recoverable());
    assert!(InstallerError::UiError("x".to_string()).is_recoverable());
    assert!(!InstallerError::zfs("a", "b").is_recoverable());
    assert!(!InstallerError::disk("a", "b").is_recoverable());
    assert!(!InstallerError::Io("x".to_string()).is_recoverable());
    assert!(!InstallerError::DeviceNotFound("x".to_string()).is_recoverable());
    assert!(!InstallerError::Other("x".to_string()).is_recoverable());
}
