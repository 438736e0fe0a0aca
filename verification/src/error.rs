//! Error kinds of the installer.

use crate::text::{framed, joined, signed_decimal, signed_decimal_string};
use vstd::prelude::*;
use vstd::string::*;

verus! {

/// Everything that can go wrong during an installation.
#[derive(Debug)]
pub enum InstallerError {
    /// Device or file not found
    DeviceNotFound(String),
    /// Device is currently in use
    DeviceInUse(String),
    /// Invalid device for operation
    InvalidDevice { path: String, reason: String },
    /// ZFS command failed
    ZfsError { operation: String, details: String },
    /// Disk operation failed
    DiskError { operation: String, details: String },
    /// Bootloader operation failed
    BootloaderError(String),
    /// Validation error
    ValidationError(String),
    /// Configuration error
    ConfigError(String),
    /// UI error
    UiError(String),
    /// Insufficient permissions
    PermissionDenied(String),
    /// Command execution failed
    CommandFailed { cmd: String, code: i32, stderr: String },
    /// System error
    SystemError(String),
    /// I/O error, with the message of the operating system
    Io(String),
    /// Parse error
    ParseError(String),
    /// Unsupported operation
    Unsupported(String),
    /// Generic error with context
    Other(String),
}

/// Mathematical model of an [`InstallerError`]: the same variants over
/// sequences of characters.
pub ghost enum ErrorModel {
    DeviceNotFound(Seq<char>),
    DeviceInUse(Seq<char>),
    InvalidDevice { path: Seq<char>, reason: Seq<char> },
    ZfsError { operation: Seq<char>, details: Seq<char> },
    DiskError { operation: Seq<char>, details: Seq<char> },
    BootloaderError(Seq<char>),
    ValidationError(Seq<char>),
    ConfigError(Seq<char>),
    UiError(Seq<char>),
    PermissionDenied(Seq<char>),
    CommandFailed { cmd: Seq<char>, code: int, stderr: Seq<char> },
    SystemError(Seq<char>),
    Io(Seq<char>),
    ParseError(Seq<char>),
    Unsupported(Seq<char>),
    Other(Seq<char>),
}

impl ErrorModel {
    /// The line shown to the user for this error.
    pub open spec fn message(self) -> Seq<char> {
        match self {
            ErrorModel::DeviceNotFound(path) => "Device not found: "@ + path,
            ErrorModel::DeviceInUse(path) => "Device "@ + path
                + " is currently in use (mounted or part of active pool)"@,
            ErrorModel::InvalidDevice { path, reason } => "Invalid device "@ + path + ": "@
                + reason,
            ErrorModel::ZfsError { operation, details } => "ZFS operation failed: "@ + operation
                + "\nDetails: "@ + details,
            ErrorModel::DiskError { operation, details } => "Disk operation failed: "@ + operation
                + "\nDetails: "@ + details,
            ErrorModel::BootloaderError(msg) => "Bootloader operation failed: "@ + msg,
            ErrorModel::ValidationError(msg) => "Validation failed: "@ + msg,
            ErrorModel::ConfigError(msg) => "Configuration error: "@ + msg,
            ErrorModel::UiError(msg) => "UI error: "@ + msg,
            ErrorModel::PermissionDenied(msg) => "Insufficient permissions: "@ + msg
                + ". This program must be run as root."@,
            ErrorModel::CommandFailed { cmd, code, stderr } => "Command '"@ + cmd
                + "' failed with exit code "@ + signed_decimal(code) + ": "@ + stderr,
            ErrorModel::SystemError(msg) => "System error: "@ + msg,
            ErrorModel::Io(msg) => "I/O error: "@ + msg,
            ErrorModel::ParseError(msg) => "Parse error: "@ + msg,
            ErrorModel::Unsupported(msg) => "Unsupported: "@ + msg,
            ErrorModel::Other(msg) => msg,
        }
    }

    /// Errors after which the user can correct the input and try again.
    pub open spec fn is_recoverable(self) -> bool {
        self is ValidationError || self is ConfigError || self is UiError
    }
}

impl View for InstallerError {
    type V = ErrorModel;

    open spec fn view(&self) -> ErrorModel {
        match self {
            InstallerError::DeviceNotFound(path) => ErrorModel::DeviceNotFound(path@),
            InstallerError::DeviceInUse(path) => ErrorModel::DeviceInUse(path@),
            InstallerError::InvalidDevice { path, reason } => ErrorModel::InvalidDevice {
                path: path@,
                reason: reason@,
            },
            InstallerError::ZfsError { operation, details } => ErrorModel::ZfsError {
                operation: operation@,
                details: details@,
            },
            InstallerError::DiskError { operation, details } => ErrorModel::DiskError {
                operation: operation@,
                details: details@,
            },
            InstallerError::BootloaderError(msg) => ErrorModel::BootloaderError(msg@),
            InstallerError::ValidationError(msg) => ErrorModel::ValidationError(msg@),
            InstallerError::ConfigError(msg) => ErrorModel::ConfigError(msg@),
            InstallerError::UiError(msg) => ErrorModel::UiError(msg@),
            InstallerError::PermissionDenied(msg) => ErrorModel::PermissionDenied(msg@),
            InstallerError::CommandFailed { cmd, code, stderr } => ErrorModel::CommandFailed {
                cmd: cmd@,
                code: *code as int,
                stderr: stderr@,
            },
            InstallerError::SystemError(msg) => ErrorModel::SystemError(msg@),
            InstallerError::Io(msg) => ErrorModel::Io(msg@),
            InstallerError::ParseError(msg) => ErrorModel::ParseError(msg@),
            InstallerError::Unsupported(msg) => ErrorModel::Unsupported(msg@),
            InstallerError::Other(msg) => ErrorModel::Other(msg@),
        }
    }
}

impl InstallerError {
    /// Create a validation error
    pub fn validation(msg: &str) -> (r: Self)
        ensures
            r@ == ErrorModel::ValidationError(msg@),
    {
        InstallerError::ValidationError(String::from_str(msg))
    }

    /// Create a config error
    pub fn config(msg: &str) -> (r: Self)
        ensures
            r@ == ErrorModel::ConfigError(msg@),
    {
        InstallerError::ConfigError(String::from_str(msg))
    }

    /// Create a ZFS error
    pub fn zfs(operation: &str, details: &str) -> (r: Self)
        ensures
            r@ == (ErrorModel::ZfsError { operation: operation@, details: details@ }),
    {
        InstallerError::ZfsError {
            operation: String::from_str(operation),
            details: String::from_str(details),
        }
    }

    /// Create a disk error
    pub fn disk(operation: &str, details: &str) -> (r: Self)
        ensures
            r@ == (ErrorModel::DiskError { operation: operation@, details: details@ }),
    {
        InstallerError::DiskError {
            operation: String::from_str(operation),
            details: String::from_str(details),
        }
    }

    /// Check if error is recoverable
    pub fn is_recoverable(&self) -> (r: bool)
        ensures
            r == self@.is_recoverable(),
    {
        match self {
            InstallerError::ValidationError(_) => true,
            InstallerError::ConfigError(_) => true,
            InstallerError::UiError(_) => true,
            _ => false,
        }
    }

    /// The line shown to the user for this error.
    pub fn to_string(&self) -> (r: String)
        ensures
            r@ == self@.message(),
    {
        match self {
            InstallerError::DeviceNotFound(path) => joined("Device not found: ", path.as_str()),
            InstallerError::DeviceInUse(path) => framed(
                "Device ",
                path.as_str(),
                " is currently in use (mounted or part of active pool)",
            ),
            InstallerError::InvalidDevice { path, reason } => {
                let mut out = framed("Invalid device ", path.as_str(), ": ");
                out.append(reason.as_str());
                out
            },
            InstallerError::ZfsError { operation, details } => {
                let mut out = framed("ZFS operation failed: ", operation.as_str(), "\nDetails: ");
                out.append(details.as_str());
                out
            },
            InstallerError::DiskError { operation, details } => {
                let mut out = framed("Disk operation failed: ", operation.as_str(), "\nDetails: ");
                out.append(details.as_str());
                out
            },
            InstallerError::BootloaderError(msg) => joined(
                "Bootloader operation failed: ",
                msg.as_str(),
            ),
            InstallerError::ValidationError(msg) => joined("Validation failed: ", msg.as_str()),
            InstallerError::ConfigError(msg) => joined("Configuration error: ", msg.as_str()),
            InstallerError::UiError(msg) => joined("UI error: ", msg.as_str()),
            InstallerError::PermissionDenied(msg) => framed(
                "Insufficient permissions: ",
                msg.as_str(),
                ". This program must be run as root.",
            ),
            InstallerError::CommandFailed { cmd, code, stderr } => {
                let number = signed_decimal_string(*code);
                let mut out = framed("Command '", cmd.as_str(), "' failed with exit code ");
                out.append(number.as_str());
                out.append(": ");
                out.append(stderr.as_str());
                out
            },
            InstallerError::SystemError(msg) => joined("System error: ", msg.as_str()),
            InstallerError::Io(msg) => joined("I/O error: ", msg.as_str()),
            InstallerError::ParseError(msg) => joined("Parse error: ", msg.as_str()),
            InstallerError::Unsupported(msg) => joined("Unsupported: ", msg.as_str()),
            InstallerError::Other(msg) => msg.clone(),
        }
    }
}

} // verus!
