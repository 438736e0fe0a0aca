//! Disk management module
//!
//! Device representation, discovery and partitioning.

pub mod block_device;
pub mod discovery;
pub mod operations;

pub use block_device::{BlockDevice, ControllerType, DeviceAttributes, DirectoryEntry, Partition};
pub use discovery::{BlockListing, DeviceDiscovery, DeviceProbe};
pub use operations::{DiskOperations, PartitionSpec, ZbmPartitions};
