//! Installer library for ZFS-root systems booted through ZFSBootMenu.

pub mod bootloader;
pub mod command;
pub mod config;
pub mod course;
pub mod disk;
pub mod error;
pub mod guarantees;
pub mod installer;
pub mod order;
pub mod size;
pub mod system;
pub mod text;
pub mod ui;
pub mod validation;
pub mod zfs;

pub use config::{Compression, Config, InstallMode, RaidLevel};
pub use disk::{BlockDevice, DeviceDiscovery, DiskOperations};
pub use error::InstallerError;
pub use installer::{Action, Event, Installer, Phase};
pub use validation::{ValidationResult, Validator};
pub use zfs::{DatasetManager, ZfsPool};
