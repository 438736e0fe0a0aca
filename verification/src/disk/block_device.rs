//! Block device representation
//!
//! A [`BlockDevice`] is built from what was read of a device's attribute
//! directory; it is a value and is never refreshed in place.

use crate::config::GIB;
use crate::error::{ErrorModel, InstallerError};
use crate::size::{byte_size_text, format_byte_size};
use crate::text::{
    any_line_begins_with, decimal, decimal_string, framed, has_prefix, joined, line_begins_with,
    parse_number, parse_u32, parse_u64, same_text, slice_of, starts_with, trim, trimmed,
    NumberError,
};
use crate::order::{arranged, ascending, is_total_order, lemma_arranged, slot};
use vstd::prelude::*;
use vstd::string::*;

verus! {

/// Smallest device that an installation fits on.
pub const MIN_SUITABLE_SIZE: u64 = 8 * GIB;

/// Bytes in one sector as the kernel counts device sizes.
pub const SECTOR_SIZE: u64 = 512;

/// The model of an optional string.
pub open spec fn optional_view(text: Option<String>) -> Option<Seq<char>> {
    match text {
        Some(t) => Some(t@),
        None => None,
    }
}

/// Represents a partition on a block device
#[derive(Debug, Clone)]
pub struct Partition {
    /// Partition device path (e.g., /dev/sda1)
    pub path: String,
    /// Partition number
    pub number: u32,
    /// Partition size in bytes
    pub size: u64,
    /// Filesystem type (if any)
    pub fstype: Option<String>,
    /// Mount point (if mounted)
    pub mountpoint: Option<String>,
}

/// Mathematical model of a [`Partition`].
pub ghost struct PartitionModel {
    pub path: Seq<char>,
    pub number: nat,
    pub size: nat,
    pub fstype: Option<Seq<char>>,
    pub mountpoint: Option<Seq<char>>,
}

impl View for Partition {
    type V = PartitionModel;

    open spec fn view(&self) -> PartitionModel {
        PartitionModel {
            path: self.path@,
            number: self.number as nat,
            size: self.size as nat,
            fstype: optional_view(self.fstype),
            mountpoint: optional_view(self.mountpoint),
        }
    }
}

/// The models of a list of partitions.
pub open spec fn partition_models(partitions: Seq<Partition>) -> Seq<PartitionModel> {
    partitions.map_values(|p: Partition| p@)
}

/// Storage controller type
#[derive(Debug, Clone, Copy, PartialEq, Eq, Structural)]
pub enum ControllerType {
    Sata,
    Nvme,
    Scsi,
    Usb,
    Mmc,
    Virtual,
    Unknown,
}

impl ControllerType {
    /// Name shown to the user.
    pub open spec fn name(self) -> Seq<char> {
        match self {
            ControllerType::Sata => "SATA"@,
            ControllerType::Nvme => "NVMe"@,
            ControllerType::Scsi => "SCSI"@,
            ControllerType::Usb => "USB"@,
            ControllerType::Mmc => "MMC"@,
            ControllerType::Virtual => "Virtual"@,
            ControllerType::Unknown => "Unknown"@,
        }
    }

    /// Name shown to the user.
    pub fn to_string(&self) -> (r: String)
        ensures
            r@ == self.name(),
    {
        match self {
            ControllerType::Sata => String::from_str("SATA"),
            ControllerType::Nvme => String::from_str("NVMe"),
            ControllerType::Scsi => String::from_str("SCSI"),
            ControllerType::Usb => String::from_str("USB"),
            ControllerType::Mmc => String::from_str("MMC"),
            ControllerType::Virtual => String::from_str("Virtual"),
            ControllerType::Unknown => String::from_str("Unknown"),
        }
    }
}

/// The controller class that a device name stands for.
pub open spec fn controller_of(name: Seq<char>) -> ControllerType {
    if has_prefix(name, "nvme"@) {
        ControllerType::Nvme
    } else if has_prefix(name, "sd"@) {
        ControllerType::Sata
    } else if has_prefix(name, "mmcblk"@) {
        ControllerType::Mmc
    } else if has_prefix(name, "vd"@) || has_prefix(name, "loop"@) {
        ControllerType::Virtual
    } else {
        ControllerType::Unknown
    }
}

/// The ashift that suits a physical sector size: 9 for 512 bytes, 13 for
/// 8192, and 12 for 4096 and everything else.
pub open spec fn ashift_for(physical_block_size: u32) -> u8 {
    if physical_block_size == 512 {
        9
    } else if physical_block_size == 8192 {
        13
    } else {
        12
    }
}

/// One entry of a device's attribute directory, as it was read.
#[derive(Debug, Clone)]
pub struct DirectoryEntry {
    /// Name of the entry.
    pub name: String,
    /// Content of the entry's `size` attribute, where it could be read.
    pub size: Option<String>,
}

/// Mathematical model of a [`DirectoryEntry`].
pub ghost struct EntryModel {
    pub name: Seq<char>,
    pub size: Option<Seq<char>>,
}

impl View for DirectoryEntry {
    type V = EntryModel;

    open spec fn view(&self) -> EntryModel {
        EntryModel { name: self.name@, size: optional_view(self.size) }
    }
}

/// The models of a list of directory entries.
pub open spec fn entry_models(entries: Seq<DirectoryEntry>) -> Seq<EntryModel> {
    entries.map_values(|e: DirectoryEntry| e@)
}

/// What was read of a device's attribute directory. A text is the content
/// of the attribute's file as it stands there; where a required attribute
/// could not be read, the message of the operating system takes its place.
#[derive(Debug)]
pub struct DeviceAttributes {
    /// The directory exists.
    pub present: bool,
    /// `size`: the device's size in sectors.
    pub size: Result<String, String>,
    /// `queue/logical_block_size`
    pub logical_block_size: Result<String, String>,
    /// `queue/physical_block_size`
    pub physical_block_size: Result<String, String>,
    /// `removable`
    pub removable: Option<String>,
    /// `ro`
    pub readonly: Option<String>,
    /// `queue/rotational`
    pub rotational: Option<String>,
    /// `device/model`
    pub model: Option<String>,
    /// `device/vendor`
    pub vendor: Option<String>,
    /// `device/serial`
    pub serial: Option<String>,
    /// The entries of the directory, in the order in which they were listed.
    pub entries: Vec<DirectoryEntry>,
}

/// The bytes that a count of sectors written in `text` comes to.
pub open spec fn sectors_to_bytes(text: Seq<char>) -> Result<nat, NumberError> {
    match parse_number(trim(text), u64::MAX as nat) {
        Ok(sectors) => if sectors * SECTOR_SIZE > u64::MAX {
            Err(NumberError::Overflow)
        } else {
            Ok((sectors * SECTOR_SIZE) as nat)
        },
        Err(e) => Err(e),
    }
}

/// The size in bytes that the `size` attribute gives.
pub open spec fn size_attribute(reading: Result<Seq<char>, Seq<char>>) -> Result<nat, ErrorModel> {
    match reading {
        Err(message) => Err(ErrorModel::Io(message)),
        Ok(text) => match sectors_to_bytes(text) {
            Ok(bytes) => Ok(bytes),
            Err(e) => Err(ErrorModel::ParseError(e.message())),
        },
    }
}

/// The sector size that a block-size attribute gives.
pub open spec fn block_size_attribute(reading: Result<Seq<char>, Seq<char>>) -> Result<
    nat,
    ErrorModel,
> {
    match reading {
        Err(message) => Err(ErrorModel::Io(message)),
        Ok(text) => match parse_number(trim(text), u32::MAX as nat) {
            Ok(bytes) => Ok(bytes),
            Err(e) => Err(ErrorModel::ParseError(e.message())),
        },
    }
}

/// The value of a yes-or-no attribute: it holds when the text is `1`, and
/// `default` stands in for an attribute that could not be read.
pub open spec fn flag_attribute(reading: Option<Seq<char>>, default: bool) -> bool {
    match reading {
        Some(text) => trim(text) == "1"@,
        None => default,
    }
}

/// The value of a descriptive attribute, without surrounding white space.
pub open spec fn label_attribute(reading: Option<Seq<char>>) -> Option<Seq<char>> {
    match reading {
        Some(text) => Some(trim(text)),
        None => None,
    }
}

/// The partition number that the name of a directory entry gives, if the
/// entry is a partition of the device `device`: the device's name, then
/// the number, with a `p` between them allowed on NVMe devices.
pub open spec fn partition_number(device: Seq<char>, entry: Seq<char>) -> Option<nat> {
    if has_prefix(entry, device) && entry.len() > device.len() {
        let suffix = entry.skip(device.len() as int);
        let digits = if has_prefix(device, "nvme"@) && suffix[0] == 'p' {
            suffix.drop_first()
        } else {
            suffix
        };
        match parse_number(digits, u32::MAX as nat) {
            Ok(number) => Some(number),
            Err(_) => None,
        }
    } else {
        None
    }
}

/// The size in bytes of a partition, 0 where it is not known.
pub open spec fn partition_size(reading: Option<Seq<char>>) -> nat {
    match reading {
        Some(text) => match sectors_to_bytes(text) {
            Ok(bytes) => bytes,
            Err(_) => 0,
        },
        None => 0,
    }
}

/// The partition that a directory entry stands for, if it stands for one.
pub open spec fn partition_of(device: Seq<char>, entry: EntryModel) -> Option<PartitionModel> {
    match partition_number(device, entry.name) {
        Some(number) => Some(
            PartitionModel {
                path: "/dev/"@ + entry.name,
                number,
                size: partition_size(entry.size),
                fstype: None,
                mountpoint: None,
            },
        ),
        None => None,
    }
}

/// The partitions among `entries`, in the order of the entries.
pub open spec fn found_partitions(device: Seq<char>, entries: Seq<EntryModel>) -> Seq<
    PartitionModel,
>
    decreases entries.len(),
{
    if entries.len() == 0 {
        Seq::empty()
    } else {
        let before = found_partitions(device, entries.drop_last());
        match partition_of(device, entries.last()) {
            Some(p) => before.push(p),
            None => before,
        }
    }
}

/// Partitions compare by their number.
pub open spec fn number_order() -> spec_fn(PartitionModel, PartitionModel) -> bool {
    |a: PartitionModel, b: PartitionModel| a.number <= b.number
}

/// `partitions` ordered by number; partitions with the same number keep
/// their order.
pub open spec fn by_number(partitions: Seq<PartitionModel>) -> Seq<PartitionModel> {
    arranged(partitions, number_order())
}

/// Reads a count of sectors and gives it in bytes.
fn read_sectors(text: &str) -> (r: Result<u64, NumberError>)
    ensures
        match r {
            Ok(bytes) => sectors_to_bytes(text@) == Ok::<nat, NumberError>(bytes as nat),
            Err(e) => sectors_to_bytes(text@) == Err::<nat, NumberError>(e),
        },
{
    let clean = trimmed(text);
    match parse_u64(clean.as_str()) {
        Ok(sectors) => {
            if sectors > u64::MAX / SECTOR_SIZE {
                Err(NumberError::Overflow)
            } else {
                Ok(sectors * SECTOR_SIZE)
            }
        },
        Err(e) => Err(e),
    }
}

/// The device's size in bytes as its `size` attribute gives it.
fn read_size_attribute(reading: &Result<String, String>) -> (r: Result<u64, InstallerError>)
    ensures
        match r {
            Ok(bytes) => size_attribute(reading_view(reading)) == Ok::<nat, ErrorModel>(bytes as nat),
            Err(e) => size_attribute(reading_view(reading)) == Err::<nat, ErrorModel>(e@),
        },
{
    match reading {
        Err(message) => Err(InstallerError::Io(message.clone())),
        Ok(text) => match read_sectors(text.as_str()) {
            Ok(bytes) => Ok(bytes),
            Err(e) => Err(InstallerError::ParseError(String::from_str(e.as_str()))),
        },
    }
}

/// A sector size as a block-size attribute gives it.
fn read_block_size_attribute(reading: &Result<String, String>) -> (r: Result<u32, InstallerError>)
    ensures
        match r {
            Ok(bytes) => block_size_attribute(reading_view(reading)) == Ok::<nat, ErrorModel>(
                bytes as nat,
            ),
            Err(e) => block_size_attribute(reading_view(reading)) == Err::<nat, ErrorModel>(e@),
        },
{
    match reading {
        Err(message) => Err(InstallerError::Io(message.clone())),
        Ok(text) => {
            let clean = trimmed(text.as_str());
            match parse_u32(clean.as_str()) {
                Ok(bytes) => Ok(bytes),
                Err(e) => Err(InstallerError::ParseError(String::from_str(e.as_str()))),
            }
        },
    }
}

/// A yes-or-no attribute.
fn read_flag_attribute(reading: &Option<String>, default: bool) -> (r: bool)
    ensures
        r == flag_attribute(optional_view(*reading), default),
{
    match reading {
        Some(text) => {
            let clean = trimmed(text.as_str());
            same_text(clean.as_str(), "1")
        },
        None => default,
    }
}

/// A descriptive attribute.
fn read_label_attribute(reading: &Option<String>) -> (r: Option<String>)
    ensures
        optional_view(r) == label_attribute(optional_view(*reading)),
{
    match reading {
        Some(text) => Some(trimmed(text.as_str())),
        None => None,
    }
}

/// The partition number that an entry's name gives, if it gives one.
fn read_partition_number(device_name: &str, entry_name: &str) -> (r: Option<u32>)
    ensures
        match r {
            Some(number) => partition_number(device_name@, entry_name@) == Some(number as nat),
            None => partition_number(device_name@, entry_name@) is None,
        },
{
    let device_len = device_name.unicode_len();
    let entry_len = entry_name.unicode_len();
    if !(starts_with(entry_name, device_name) && entry_len > device_len) {
        return None;
    }
    let mut from: usize = device_len;
    let ghost suffix = entry_name@.skip(device_len as int);
    if starts_with(device_name, "nvme") && entry_name.get_char(device_len) == 'p' {
        from = device_len + 1;
        assert(suffix.drop_first() =~= entry_name@.subrange(from as int, entry_len as int));
    } else {
        assert(suffix =~= entry_name@.subrange(from as int, entry_len as int));
    }
    let digits = slice_of(entry_name, from, entry_len);
    match parse_u32(digits.as_str()) {
        Ok(number) => Some(number),
        Err(_) => None,
    }
}

/// The partition that a directory entry stands for, if it stands for one.
fn read_partition(device_name: &str, entry: &DirectoryEntry) -> (r: Option<Partition>)
    ensures
        match r {
            Some(p) => partition_of(device_name@, entry@) == Some(p@),
            None => partition_of(device_name@, entry@) is None,
        },
{
    match read_partition_number(device_name, entry.name.as_str()) {
        None => None,
        Some(number) => {
            let size: u64 = match &entry.size {
                Some(text) => match read_sectors(text.as_str()) {
                    Ok(bytes) => bytes,
                    Err(_) => 0,
                },
                None => 0,
            };
            Some(
                Partition {
                    path: joined("/dev/", entry.name.as_str()),
                    number,
                    size,
                    fstype: None,
                    mountpoint: None,
                },
            )
        },
    }
}

/// Puts `partition` into the ascending list `sorted`, behind every
/// partition whose number is not larger.
fn insert_by_number(sorted: &mut Vec<Partition>, partition: Partition)
    ensures
        partition_models(final(sorted)@) == partition_models(old(sorted)@).insert(
            slot(partition_models(old(sorted)@), partition@, number_order()),
            partition@,
        ),
{
    let ghost models = partition_models(sorted@);
    let ghost number = partition@;
    let mut at: usize = sorted.len();
    assert(models.take(at as int) =~= models);
    while at > 0 && sorted[at - 1].number > partition.number
        invariant
            at <= sorted.len(),
            models == partition_models(sorted@),
            number == partition@,
            slot(models, number, number_order()) == slot(
                models.take(at as int),
                number,
                number_order(),
            ),
        decreases at,
    {
        proof {
            let upto = models.take(at as int);
            assert(upto.last() == sorted@[at - 1]@);
            assert(upto.drop_last() =~= models.take(at - 1));
        }
        at -= 1;
    }
    proof {
        let upto = models.take(at as int);
        if at > 0 {
            assert(upto.last() == sorted@[at - 1]@);
        }
        assert(slot(upto, number, number_order()) == at);
    }
    let ghost before = sorted@;
    sorted.insert(at, partition);
    assert(partition_models(sorted@) =~= partition_models(before).insert(at as int, partition@));
}

/// Represents a block device
#[derive(Debug, Clone)]
pub struct BlockDevice {
    /// Device name (e.g., sda, nvme0n1)
    pub name: String,
    /// Device path (e.g., /dev/sda)
    pub path: String,
    /// Sysfs path (e.g., /sys/block/sda)
    pub sys_path: String,
    /// Controller type
    pub controller_type: ControllerType,
    /// Device size in bytes
    pub size: u64,
    /// Logical sector size
    pub logical_block_size: u32,
    /// Physical sector size
    pub physical_block_size: u32,
    /// Device model
    pub model: Option<String>,
    /// Device serial number
    pub serial: Option<String>,
    /// Device vendor
    pub vendor: Option<String>,
    /// Is device removable
    pub removable: bool,
    /// Is device read-only
    pub readonly: bool,
    /// Is device rotational (HDD vs SSD)
    pub rotational: bool,
    /// Partitions on this device
    pub partitions: Vec<Partition>,
}

/// Mathematical model of a [`BlockDevice`].
pub ghost struct BlockDeviceModel {
    pub name: Seq<char>,
    pub path: Seq<char>,
    pub sys_path: Seq<char>,
    pub controller_type: ControllerType,
    pub size: nat,
    pub logical_block_size: nat,
    pub physical_block_size: nat,
    pub model: Option<Seq<char>>,
    pub serial: Option<Seq<char>>,
    pub vendor: Option<Seq<char>>,
    pub removable: bool,
    pub readonly: bool,
    pub rotational: bool,
    pub partitions: Seq<PartitionModel>,
}

impl View for BlockDevice {
    type V = BlockDeviceModel;

    open spec fn view(&self) -> BlockDeviceModel {
        BlockDeviceModel {
            name: self.name@,
            path: self.path@,
            sys_path: self.sys_path@,
            controller_type: self.controller_type,
            size: self.size as nat,
            logical_block_size: self.logical_block_size as nat,
            physical_block_size: self.physical_block_size as nat,
            model: optional_view(self.model),
            serial: optional_view(self.serial),
            vendor: optional_view(self.vendor),
            removable: self.removable,
            readonly: self.readonly,
            rotational: self.rotational,
            partitions: partition_models(self.partitions@),
        }
    }
}

/// The models of a list of devices.
pub open spec fn device_models(devices: Seq<BlockDevice>) -> Seq<BlockDeviceModel> {
    devices.map_values(|d: BlockDevice| d@)
}

/// Why no device comes of `attrs`, if none does: the directory is missing,
/// or the size or a sector size cannot be had, in this order.
pub open spec fn reading_failure(name: Seq<char>, attrs: &DeviceAttributes) -> Option<ErrorModel> {
    if !attrs.present {
        Some(ErrorModel::DeviceNotFound("/dev/"@ + name))
    } else if size_attribute(reading_view(&attrs.size)) is Err {
        Some(size_attribute(reading_view(&attrs.size))->Err_0)
    } else if block_size_attribute(reading_view(&attrs.logical_block_size)) is Err {
        Some(block_size_attribute(reading_view(&attrs.logical_block_size))->Err_0)
    } else if block_size_attribute(reading_view(&attrs.physical_block_size)) is Err {
        Some(block_size_attribute(reading_view(&attrs.physical_block_size))->Err_0)
    } else {
        None
    }
}

/// The device named `name` that `attrs` describes, or why there is none.
pub open spec fn device_of(name: Seq<char>, attrs: &DeviceAttributes) -> Result<
    BlockDeviceModel,
    ErrorModel,
> {
    match reading_failure(name, attrs) {
        Some(e) => Err(e),
        None => Ok(
            BlockDeviceModel {
                name,
                path: "/dev/"@ + name,
                sys_path: "/sys/block/"@ + name,
                controller_type: controller_of(name),
                size: size_attribute(reading_view(&attrs.size))->Ok_0,
                logical_block_size: block_size_attribute(
                    reading_view(&attrs.logical_block_size),
                )->Ok_0,
                physical_block_size: block_size_attribute(
                    reading_view(&attrs.physical_block_size),
                )->Ok_0,
                model: label_attribute(optional_view(attrs.model)),
                serial: label_attribute(optional_view(attrs.serial)),
                vendor: label_attribute(optional_view(attrs.vendor)),
                removable: flag_attribute(optional_view(attrs.removable), false),
                readonly: flag_attribute(optional_view(attrs.readonly), false),
                rotational: flag_attribute(optional_view(attrs.rotational), true),
                partitions: by_number(found_partitions(name, entry_models(attrs.entries@))),
            },
        ),
    }
}

/// The text before a device's size in its display name: the model between
/// brackets, where there is one.
pub open spec fn model_note(model: Option<Seq<char>>) -> Seq<char> {
    match model {
        Some(m) => " ("@ + trim(m) + ")"@,
        None => Seq::empty(),
    }
}

/// The reason given for a device that is too small.
pub open spec fn too_small_reason(size: nat) -> Seq<char> {
    "Device too small ("@ + decimal(size) + " bytes, need at least 8GB)"@
}

impl BlockDeviceModel {
    /// The mount table `mounts` holds the device or one of its partitions:
    /// some line begins with the path and a space.
    pub open spec fn mounted_in(self, mounts: Seq<char>) -> bool {
        line_begins_with(mounts, self.path + " "@) || exists|i: int|
            0 <= i < self.partitions.len() && line_begins_with(
                mounts,
                (#[trigger] self.partitions[i]).path + " "@,
            )
    }

    /// Some partition of the device is a member of a ZFS pool.
    pub open spec fn has_pool_member(self) -> bool {
        exists|i: int|
            0 <= i < self.partitions.len() && (#[trigger] self.partitions[i]).fstype == Some(
                "zfs_member"@,
            )
    }

    /// Why the device cannot take an installation, if it cannot. The
    /// checks stand in a fixed order and the first that fails decides:
    /// read-only, removable, too small, mounted. `mounts` is the mount
    /// table, or the message with which reading it failed. With
    /// `allow_removable` the second check is left out.
    pub open spec fn unsuitability(
        self,
        mounts: Result<Seq<char>, Seq<char>>,
        allow_removable: bool,
    ) -> Option<ErrorModel> {
        if self.readonly {
            Some(ErrorModel::InvalidDevice { path: self.path, reason: "Device is read-only"@ })
        } else if self.removable && !allow_removable {
            Some(
                ErrorModel::InvalidDevice {
                    path: self.path,
                    reason: "Device is removable (use --force to override)"@,
                },
            )
        } else if self.size < MIN_SUITABLE_SIZE {
            Some(ErrorModel::InvalidDevice { path: self.path, reason: too_small_reason(self.size) })
        } else {
            match mounts {
                Err(message) => Some(ErrorModel::Io(message)),
                Ok(table) => if self.mounted_in(table) {
                    Some(ErrorModel::DeviceInUse(self.path))
                } else {
                    None
                },
            }
        }
    }
}

impl BlockDevice {
    /// Create a new BlockDevice from a device name (e.g., "sda") and what
    /// was read of its attribute directory.
    pub fn from_name(name: &str, attrs: &DeviceAttributes) -> (r: Result<Self, InstallerError>)
        ensures
            match r {
                Ok(device) => device_of(name@, attrs) == Ok::<BlockDeviceModel, ErrorModel>(
                    device@,
                ),
                Err(e) => device_of(name@, attrs) == Err::<BlockDeviceModel, ErrorModel>(e@),
            },
    {
        let path = joined("/dev/", name);
        let sys_path = joined("/sys/block/", name);
        if !attrs.present {
            return Err(InstallerError::DeviceNotFound(path));
        }
        let size = match read_size_attribute(&attrs.size) {
            Ok(bytes) => bytes,
            Err(e) => {
                return Err(e);
            },
        };
        let logical_block_size = match read_block_size_attribute(&attrs.logical_block_size) {
            Ok(bytes) => bytes,
            Err(e) => {
                return Err(e);
            },
        };
        let physical_block_size = match read_block_size_attribute(&attrs.physical_block_size) {
            Ok(bytes) => bytes,
            Err(e) => {
                return Err(e);
            },
        };
        let removable = read_flag_attribute(&attrs.removable, false);
        let readonly = read_flag_attribute(&attrs.readonly, false);
        let rotational = read_flag_attribute(&attrs.rotational, true);
        let model = read_label_attribute(&attrs.model);
        let vendor = read_label_attribute(&attrs.vendor);
        let serial = read_label_attribute(&attrs.serial);
        let controller_type = Self::detect_controller_type(name);
        let partitions = Self::discover_partitions(name, &attrs.entries);
        Ok(
            BlockDevice {
                name: String::from_str(name),
                path,
                sys_path,
                controller_type,
                size,
                logical_block_size,
                physical_block_size,
                model,
                serial,
                vendor,
                removable,
                readonly,
                rotational,
                partitions,
            },
        )
    }

    /// Discover partitions on this device among the entries of its
    /// attribute directory, ordered by partition number.
    pub fn discover_partitions(device_name: &str, entries: &Vec<DirectoryEntry>) -> (r: Vec<
        Partition,
    >)
        ensures
            partition_models(r@) == by_number(
                found_partitions(device_name@, entry_models(entries@)),
            ),
            ascending(partition_models(r@), number_order()),
    {
        let mut partitions: Vec<Partition> = Vec::new();
        let ghost models = entry_models(entries@);
        assert(models.take(0) =~= Seq::empty());
        assert(partition_models(partitions@) =~= Seq::empty());
        let mut i: usize = 0;
        while i < entries.len()
            invariant
                i <= entries.len(),
                models == entry_models(entries@),
                partition_models(partitions@) == by_number(
                    found_partitions(device_name@, models.take(i as int)),
                ),
            decreases entries.len() - i,
        {
            proof {
                let upto = models.take(i + 1);
                assert(upto.drop_last() =~= models.take(i as int));
                assert(upto.last() == entries@[i as int]@);
            }
            match read_partition(device_name, &entries[i]) {
                Some(partition) => {
                    proof {
                        let so_far = found_partitions(device_name@, models.take(i as int));
                        assert(so_far.push(partition@).drop_last() =~= so_far);
                    }
                    insert_by_number(&mut partitions, partition);
                },
                None => {},
            }
            i += 1;
        }
        proof {
            assert(models.take(entries.len() as int) =~= models);
            assert(is_total_order(number_order()));
            lemma_arranged(found_partitions(device_name@, models), number_order());
        }
        partitions
    }

    /// Detect controller type from device name
    pub fn detect_controller_type(name: &str) -> (r: ControllerType)
        ensures
            r == controller_of(name@),
    {
        if starts_with(name, "nvme") {
            ControllerType::Nvme
        } else if starts_with(name, "sd") {
            ControllerType::Sata
        } else if starts_with(name, "mmcblk") {
            ControllerType::Mmc
        } else if starts_with(name, "vd") || starts_with(name, "loop") {
            ControllerType::Virtual
        } else {
            ControllerType::Unknown
        }
    }

    /// Whether the mount table `table` holds the device or one of its
    /// partitions.
    pub fn is_mounted_in(&self, table: &str) -> (r: bool)
        ensures
            r == self@.mounted_in(table@),
    {
        let own = joined(self.path.as_str(), " ");
        if any_line_begins_with(table, own.as_str()) {
            return true;
        }
        let mut i: usize = 0;
        while i < self.partitions.len()
            invariant
                i <= self.partitions.len(),
                forall|j: int|
                    0 <= j < i ==> !line_begins_with(
                        table@,
                        (#[trigger] self@.partitions[j]).path + " "@,
                    ),
            decreases self.partitions.len() - i,
        {
            let prefix = joined(self.partitions[i].path.as_str(), " ");
            if any_line_begins_with(table, prefix.as_str()) {
                assert(line_begins_with(table@, self@.partitions[i as int].path + " "@));
                return true;
            }
            i += 1;
        }
        false
    }

    /// Check if device is currently mounted, given the mount table or the
    /// message with which reading it failed.
    pub fn is_mounted(&self, mounts: &Result<String, String>) -> (r: Result<bool, InstallerError>)
        ensures
            match (r, mounts) {
                (Ok(found), Ok(table)) => found == self@.mounted_in(table@),
                (Err(e), Err(message)) => e@ == ErrorModel::Io(message@),
                _ => false,
            },
    {
        match mounts {
            Err(message) => Err(InstallerError::Io(message.clone())),
            Ok(table) => Ok(self.is_mounted_in(table.as_str())),
        }
    }

    /// Check if device is part of a ZFS pool: it is when one of its
    /// partitions is known to hold a `zfs_member` filesystem.
    pub fn is_in_zfs_pool(&self) -> (r: Result<bool, InstallerError>)
        ensures
            r matches Ok(found) && found == self@.has_pool_member(),
    {
        let mut i: usize = 0;
        while i < self.partitions.len()
            invariant
                i <= self.partitions.len(),
                forall|j: int|
                    0 <= j < i ==> (#[trigger] self@.partitions[j]).fstype != Some("zfs_member"@),
            decreases self.partitions.len() - i,
        {
            if let Some(kind) = &self.partitions[i].fstype {
                if same_text(kind.as_str(), "zfs_member") {
                    assert(self@.partitions[i as int].fstype == Some("zfs_member"@));
                    return Ok(true);
                }
            }
            i += 1;
        }
        Ok(false)
    }

    /// Check if device is suitable for installation, with the check for
    /// removable devices left out where `allow_removable` is set.
    pub fn check_suitability(&self, mounts: &Result<String, String>, allow_removable: bool) -> (r:
        Result<(), InstallerError>)
        ensures
            r is Ok <==> self@.unsuitability(reading_view(mounts), allow_removable) is None,
            r matches Err(e) ==> self@.unsuitability(reading_view(mounts), allow_removable) == Some(
                e@,
            ),
    {
        if self.readonly {
            return Err(
                InstallerError::InvalidDevice {
                    path: self.path.clone(),
                    reason: String::from_str("Device is read-only"),
                },
            );
        }
        if self.removable && !allow_removable {
            return Err(
                InstallerError::InvalidDevice {
                    path: self.path.clone(),
                    reason: String::from_str("Device is removable (use --force to override)"),
                },
            );
        }
        if self.size < MIN_SUITABLE_SIZE {
            let reason = framed(
                "Device too small (",
                decimal_string(self.size).as_str(),
                " bytes, need at least 8GB)",
            );
            return Err(InstallerError::InvalidDevice { path: self.path.clone(), reason });
        }
        match self.is_mounted(mounts) {
            Err(e) => Err(e),
            Ok(true) => Err(InstallerError::DeviceInUse(self.path.clone())),
            Ok(false) => Ok(()),
        }
    }

    /// Check if device is suitable for installation. The device reports
    /// raw facts and one default policy, under which a removable device is
    /// rejected; a caller that admits removable devices says so through
    /// [`BlockDevice::check_suitability`].
    pub fn is_suitable(&self, mounts: &Result<String, String>) -> (r: Result<(), InstallerError>)
        ensures
            r is Ok <==> self@.unsuitability(reading_view(mounts), false) is None,
            r matches Err(e) ==> self@.unsuitability(reading_view(mounts), false) == Some(e@),
    {
        self.check_suitability(mounts, false)
    }

    /// Get human-readable size
    pub fn size_human(&self) -> (r: String)
        ensures
            r@ == byte_size_text(self.size),
    {
        format_byte_size(self.size)
    }

    /// Get recommended ashift value based on physical block size
    pub fn recommended_ashift(&self) -> (r: u8)
        ensures
            r == ashift_for(self.physical_block_size),
    {
        if self.physical_block_size == 512 {
            9
        } else if self.physical_block_size == 8192 {
            13
        } else {
            12
        }
    }

    /// The display name of the device for a given text of its size: the
    /// name, the model between brackets where it is known, and the size.
    pub fn display_name_with(&self, size_text: &str) -> (r: String)
        ensures
            r@ == self.name@ + model_note(optional_view(self.model)) + " - "@ + size_text@,
    {
        let mut out = self.name.clone();
        match &self.model {
            Some(m) => {
                let note = framed(" (", trimmed(m.as_str()).as_str(), ")");
                out.append(note.as_str());
            },
            None => {
                assert(out@ + Seq::<char>::empty() =~= out@);
            },
        }
        out.append(" - ");
        out.append(size_text);
        out
    }

    /// Get a display name for the device
    pub fn display_name(&self) -> (r: String)
        ensures
            r@ == self.name@ + model_note(optional_view(self.model)) + " - "@ + byte_size_text(
                self.size,
            ),
    {
        let size_text = self.size_human();
        self.display_name_with(size_text.as_str())
    }
}

/// The model of a text that was read from the system, or of the message
/// with which reading it failed.
pub open spec fn reading_view(reading: &Result<String, String>) -> Result<Seq<char>, Seq<char>> {
    match reading {
        Ok(text) => Ok(text@),
        Err(message) => Err(message@),
    }
}

} // verus!
