//! System utilities: distribution detection, package management, etc.

pub mod distro;
pub mod memory;
pub mod packages;
pub mod probe;

pub use distro::Distro;
pub use memory::{get_system_memory_kb, sync};
pub use packages::PackageInstaller;
pub use probe::{is_root, is_uefi};
