//! ZFS pool and dataset management

pub mod dataset;
pub mod pool;
pub mod tools;

pub use dataset::{DatasetManager, DatasetProperty};
pub use pool::ZfsPool;
pub use tools::{check_zfs_available, get_zfs_version};
