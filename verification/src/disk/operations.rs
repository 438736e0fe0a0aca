//! Disk operations: partitioning, formatting, wiping
//!
//! Every operation is planned here as steps of external tools, in a fixed
//! order, and handed out to be carried out.

use crate::command::{
    step_models, Command, CommandModel, Executor, FailurePolicy, Step, StepModel,
};
use crate::size::{partition_size_argument, size_argument};
use crate::disk::block_device::{optional_view, BlockDevice};
use crate::text::{decimal, decimal_string, framed, has_prefix, joined, starts_with};
use vstd::prelude::*;
use vstd::string::*;

verus! {

/// Partition specification
#[derive(Debug, Clone)]
pub struct PartitionSpec {
    /// Partition number
    pub number: u32,
    /// Start sector/offset
    pub start: String,
    /// End sector/offset (or size)
    pub end: String,
    /// Partition type GUID (for GPT)
    pub type_guid: Option<String>,
    /// Partition name
    pub name: Option<String>,
}

/// Mathematical model of a [`PartitionSpec`].
pub ghost struct PartitionSpecModel {
    pub number: nat,
    pub start: Seq<char>,
    pub end: Seq<char>,
    pub type_guid: Option<Seq<char>>,
    pub name: Option<Seq<char>>,
}

impl View for PartitionSpec {
    type V = PartitionSpecModel;

    open spec fn view(&self) -> PartitionSpecModel {
        PartitionSpecModel {
            number: self.number as nat,
            start: self.start@,
            end: self.end@,
            type_guid: optional_view(self.type_guid),
            name: optional_view(self.name),
        }
    }
}

/// Result of creating ZBM partitions
#[derive(Debug)]
pub struct ZbmPartitions {
    /// EFI system partition path
    pub efi: String,
    /// Swap partition path (None if disabled)
    pub swap: Option<String>,
    /// ZFS partition path
    pub zfs: String,
}

/// Mathematical model of [`ZbmPartitions`].
pub ghost struct ZbmPartitionsModel {
    pub efi: Seq<char>,
    pub swap: Option<Seq<char>>,
    pub zfs: Seq<char>,
}

impl View for ZbmPartitions {
    type V = ZbmPartitionsModel;

    open spec fn view(&self) -> ZbmPartitionsModel {
        ZbmPartitionsModel { efi: self.efi@, swap: optional_view(self.swap), zfs: self.zfs@ }
    }
}

/// The device node of partition `number` of a device: NVMe devices put a
/// `p` between their path and the number, all others append the number.
pub open spec fn partition_path(device_name: Seq<char>, device_path: Seq<char>, number: nat) -> Seq<
    char,
> {
    if has_prefix(device_name, "nvme"@) {
        device_path + "p"@ + decimal(number)
    } else {
        device_path + decimal(number)
    }
}

/// `partprobe path`: makes the kernel read the partition table again.
pub open spec fn probe_command(path: Seq<char>) -> CommandModel {
    CommandModel::bare("partprobe"@).with(path)
}

/// The commands that wipe all signatures and partition tables of a device.
pub open spec fn wipe_commands(path: Seq<char>) -> Seq<CommandModel> {
    seq![
        CommandModel::bare("wipefs"@).with("-a"@).with(path),
        CommandModel::bare("sgdisk"@).with("--zap-all"@).with(path),
        probe_command(path),
    ]
}

/// The commands that put a fresh GPT on a device.
pub open spec fn gpt_commands(path: Seq<char>) -> Seq<CommandModel> {
    seq![CommandModel::bare("sgdisk"@).with("--clear"@).with(path), probe_command(path)]
}

/// `a` with `extra` behind it, where there is one.
pub open spec fn with_optional(a: CommandModel, extra: Option<Seq<char>>) -> CommandModel {
    match extra {
        Some(arg) => a.with(arg),
        None => a,
    }
}

/// `sgdisk path --new=N:start:end [--typecode=N:type] [--change-name=N:name]`
pub open spec fn new_partition_command(path: Seq<char>, spec: PartitionSpecModel) -> CommandModel {
    let number = decimal(spec.number);
    let base = CommandModel::bare("sgdisk"@).with(path).with(
        "--new="@ + number + ":"@ + spec.start + ":"@ + spec.end,
    );
    let typed = with_optional(
        base,
        match spec.type_guid {
            Some(guid) => Some("--typecode="@ + number + ":"@ + guid),
            None => None,
        },
    );
    with_optional(
        typed,
        match spec.name {
            Some(name) => Some("--change-name="@ + number + ":"@ + name),
            None => None,
        },
    )
}

/// The commands that create one partition.
pub open spec fn partition_commands(path: Seq<char>, spec: PartitionSpecModel) -> Seq<
    CommandModel,
> {
    seq![new_partition_command(path, spec), probe_command(path)]
}

/// The EFI system partition: number 1, from 1 MiB on, of `efi_size`
/// bytes.
pub open spec fn efi_partition(efi_size: u64) -> PartitionSpecModel {
    PartitionSpecModel {
        number: 1,
        start: "1MiB"@,
        end: size_argument(efi_size),
        type_guid: Some("EF00"@),
        name: Some("EFI"@),
    }
}

/// The swap partition: number 2, of `swap_size` bytes.
pub open spec fn swap_partition(swap_size: u64) -> PartitionSpecModel {
    PartitionSpecModel {
        number: 2,
        start: "0"@,
        end: size_argument(swap_size),
        type_guid: Some("8200"@),
        name: Some("swap"@),
    }
}

/// The pool's partition: all the space that is left.
pub open spec fn zfs_partition(number: nat) -> PartitionSpecModel {
    PartitionSpecModel {
        number,
        start: "0"@,
        end: "0"@,
        type_guid: Some("BF00"@),
        name: Some("zfs"@),
    }
}

/// The number of the pool's partition: 3 behind a swap partition, else 2.
pub open spec fn zfs_partition_number(swap_size: u64) -> nat {
    if swap_size > 0 {
        3
    } else {
        2
    }
}

/// The commands that lay out a device, in their fixed order: wipe, fresh
/// GPT, EFI partition, swap partition where swap is wanted, pool partition.
pub open spec fn layout_commands(path: Seq<char>, efi_size: u64, swap_size: u64) -> Seq<
    CommandModel,
> {
    wipe_commands(path) + gpt_commands(path) + partition_commands(path, efi_partition(efi_size))
        + (if swap_size > 0 {
        partition_commands(path, swap_partition(swap_size))
    } else {
        Seq::empty()
    }) + partition_commands(path, zfs_partition(zfs_partition_number(swap_size)))
}

/// The partitions that the layout gives a device.
pub open spec fn layout_partitions(
    device_name: Seq<char>,
    device_path: Seq<char>,
    swap_size: u64,
) -> ZbmPartitionsModel {
    ZbmPartitionsModel {
        efi: partition_path(device_name, device_path, 1),
        swap: if swap_size > 0 {
            Some(partition_path(device_name, device_path, 2))
        } else {
            None
        },
        zfs: partition_path(device_name, device_path, zfs_partition_number(swap_size)),
    }
}

/// `mkfs.vfat -F32 -n EFI partition`
pub open spec fn format_efi_command(partition: Seq<char>) -> CommandModel {
    CommandModel::bare("mkfs.vfat"@).with("-F32"@).with("-n"@).with("EFI"@).with(partition)
}

/// `mkswap partition`
pub open spec fn make_swap_command(partition: Seq<char>) -> CommandModel {
    CommandModel::bare("mkswap"@).with(partition)
}

/// The steps that run `commands` as disk operations.
pub open spec fn disk_steps(commands: Seq<CommandModel>, simulated: bool) -> Seq<StepModel> {
    commands.map_values(|c: CommandModel| StepModel::run(c, FailurePolicy::Disk, simulated))
}

/// The command changes the partition table of a device.
pub open spec fn changes_table(command: CommandModel) -> bool {
    command.program == "sgdisk"@
}

/// Every command of a layout that changes the partition table is followed
/// at once by a kernel re-read of the device.
pub proof fn lemma_table_changes_are_probed(path: Seq<char>, efi_size: u64, swap_size: u64)
    ensures
        forall|i: int|
            0 <= i < layout_commands(path, efi_size, swap_size).len() && changes_table(
                #[trigger] layout_commands(path, efi_size, swap_size)[i],
            ) ==> i + 1 < layout_commands(path, efi_size, swap_size).len() && layout_commands(
                path,
                efi_size,
                swap_size,
            )[i + 1] == probe_command(path),
{
    reveal_strlit("sgdisk");
    reveal_strlit("wipefs");
    reveal_strlit("partprobe");
    let commands = layout_commands(path, efi_size, swap_size);
    let probe = probe_command(path);
    assert("wipefs"@[0] != "sgdisk"@[0]);
    assert("partprobe"@[0] != "sgdisk"@[0]);
    assert(!changes_table(probe));
    assert(commands[0].program == "wipefs"@);
    assert(commands[2] == probe);
    assert(commands[4] == probe);
    assert(commands[6] == probe);
    assert(commands[8] == probe);
    if swap_size > 0 {
        assert(commands.len() == 11);
        assert(commands[10] == probe);
    } else {
        assert(commands.len() == 9);
    }
}

/// Disk operations manager
#[derive(Debug)]
pub struct DiskOperations {
    /// Dry run mode - don't actually execute commands
    pub dry_run: bool,
}

impl DiskOperations {
    /// Create a new disk operations manager
    pub fn new(dry_run: bool) -> (r: Self)
        ensures
            r.dry_run == dry_run,
    {
        DiskOperations { dry_run }
    }

    fn run(&self, command: Command) -> (r: Step)
        ensures
            r@ == StepModel::run(command@, FailurePolicy::Disk, self.dry_run),
    {
        Executor::new(self.dry_run).run(command, FailurePolicy::Disk)
    }

    fn probe(&self, device: &BlockDevice) -> (r: Step)
        ensures
            r@ == StepModel::run(probe_command(device.path@), FailurePolicy::Disk, self.dry_run),
    {
        self.run(Command::new("partprobe").arg(device.path.as_str()))
    }

    /// Wipe all data from a device: file system and RAID signatures, then
    /// GPT and MBR, then a kernel re-read.
    pub fn wipe_device(&self, device: &BlockDevice) -> (r: Vec<Step>)
        ensures
            step_models(r@) == disk_steps(wipe_commands(device.path@), self.dry_run),
    {
        let path = device.path.as_str();
        let mut steps: Vec<Step> = Vec::new();
        steps.push(self.run(Command::new("wipefs").arg("-a").arg(path)));
        steps.push(self.run(Command::new("sgdisk").arg("--zap-all").arg(path)));
        steps.push(self.probe(device));
        assert(step_models(steps@) =~= disk_steps(wipe_commands(device.path@), self.dry_run));
        steps
    }

    /// Create a GPT partition table, then have the kernel read it.
    pub fn create_gpt(&self, device: &BlockDevice) -> (r: Vec<Step>)
        ensures
            step_models(r@) == disk_steps(gpt_commands(device.path@), self.dry_run),
    {
        let mut steps: Vec<Step> = Vec::new();
        steps.push(self.run(Command::new("sgdisk").arg("--clear").arg(device.path.as_str())));
        steps.push(self.probe(device));
        assert(step_models(steps@) =~= disk_steps(gpt_commands(device.path@), self.dry_run));
        steps
    }

    /// The device node that partition `number` of `device` will have.
    pub fn partition_path(device: &BlockDevice, number: u32) -> (r: String)
        ensures
            r@ == partition_path(device.name@, device.path@, number as nat),
    {
        let digits = decimal_string(number as u64);
        if starts_with(device.name.as_str(), "nvme") {
            framed(device.path.as_str(), "p", digits.as_str())
        } else {
            joined(device.path.as_str(), digits.as_str())
        }
    }

    /// Create a partition: the steps, and the device node that the
    /// partition will have once they are carried out.
    pub fn create_partition(&self, device: &BlockDevice, spec: &PartitionSpec) -> (r: (
        Vec<Step>,
        String,
    ))
        ensures
            step_models(r.0@) == disk_steps(partition_commands(device.path@, spec@), self.dry_run),
            r.1@ == partition_path(device.name@, device.path@, spec.number as nat),
    {
        let number = decimal_string(spec.number as u64);
        let mut range = framed("--new=", number.as_str(), ":");
        range.append(spec.start.as_str());
        range.append(":");
        range.append(spec.end.as_str());
        let mut cmd = Command::new("sgdisk").arg(device.path.as_str()).arg(range.as_str());
        if let Some(type_guid) = &spec.type_guid {
            let mut code = framed("--typecode=", number.as_str(), ":");
            code.append(type_guid.as_str());
            cmd = cmd.arg(code.as_str());
        }
        if let Some(name) = &spec.name {
            let mut label = framed("--change-name=", number.as_str(), ":");
            label.append(name.as_str());
            cmd = cmd.arg(label.as_str());
        }
        assert(cmd@ == new_partition_command(device.path@, spec@));
        let mut steps: Vec<Step> = Vec::new();
        steps.push(self.run(cmd));
        steps.push(self.probe(device));
        assert(step_models(steps@) =~= disk_steps(
            partition_commands(device.path@, spec@),
            self.dry_run,
        ));
        (steps, Self::partition_path(device, spec.number))
    }

    /// Create standard ZBM partitions on a device: the steps in their
    /// fixed order, and the partitions that come of them.
    pub fn create_zbm_partitions(&self, device: &BlockDevice, efi_size: u64, swap_size: u64) -> (r:
        (Vec<Step>, ZbmPartitions))
        ensures
            step_models(r.0@) == disk_steps(
                layout_commands(device.path@, efi_size, swap_size),
                self.dry_run,
            ),
            r.1@ == layout_partitions(device.name@, device.path@, swap_size),
    {
        let ghost path = device.path@;
        let mut steps = self.wipe_device(device);
        let mut gpt = self.create_gpt(device);
        let ghost wiped = steps@;
        let ghost cleared = gpt@;
        steps.append(&mut gpt);
        assert(step_models(steps@) =~= disk_steps(
            wipe_commands(path) + gpt_commands(path),
            self.dry_run,
        )) by {
            assert(step_models(wiped + cleared) =~= step_models(wiped) + step_models(cleared));
        }

        let efi_spec = PartitionSpec {
            number: 1,
            start: String::from_str("1MiB"),
            end: partition_size_argument(efi_size),
            type_guid: Some(String::from_str("EF00")),
            name: Some(String::from_str("EFI")),
        };
        let (mut efi_steps, efi_path) = self.create_partition(device, &efi_spec);
        let ghost so_far = steps@;
        let ghost added = efi_steps@;
        steps.append(&mut efi_steps);
        assert(step_models(steps@) =~= disk_steps(
            wipe_commands(path) + gpt_commands(path) + partition_commands(
                path,
                efi_partition(efi_size),
            ),
            self.dry_run,
        )) by {
            assert(step_models(so_far + added) =~= step_models(so_far) + step_models(added));
        }

        let mut swap_path: Option<String> = None;
        if swap_size > 0 {
            let swap_spec = PartitionSpec {
                number: 2,
                start: String::from_str("0"),
                end: partition_size_argument(swap_size),
                type_guid: Some(String::from_str("8200")),
                name: Some(String::from_str("swap")),
            };
            let (mut swap_steps, path_of_swap) = self.create_partition(device, &swap_spec);
            let ghost so_far = steps@;
            let ghost added = swap_steps@;
            steps.append(&mut swap_steps);
            assert(step_models(so_far + added) =~= step_models(so_far) + step_models(added));
            swap_path = Some(path_of_swap);
        }
        let ghost swap_commands = if swap_size > 0 {
            partition_commands(path, swap_partition(swap_size))
        } else {
            Seq::empty()
        };
        assert(step_models(steps@) =~= disk_steps(
            wipe_commands(path) + gpt_commands(path) + partition_commands(
                path,
                efi_partition(efi_size),
            ) + swap_commands,
            self.dry_run,
        ));

        let zfs_number: u32 = if swap_path.is_some() {
            3
        } else {
            2
        };
        let zfs_spec = PartitionSpec {
            number: zfs_number,
            start: String::from_str("0"),
            end: String::from_str("0"),
            type_guid: Some(String::from_str("BF00")),
            name: Some(String::from_str("zfs")),
        };
        let (mut zfs_steps, zfs_path) = self.create_partition(device, &zfs_spec);
        let ghost so_far = steps@;
        let ghost added = zfs_steps@;
        steps.append(&mut zfs_steps);
        assert(step_models(steps@) =~= disk_steps(
            layout_commands(path, efi_size, swap_size),
            self.dry_run,
        )) by {
            assert(step_models(so_far + added) =~= step_models(so_far) + step_models(added));
        }
        (steps, ZbmPartitions { efi: efi_path, swap: swap_path, zfs: zfs_path })
    }

    /// Format a partition as FAT32 (for EFI)
    pub fn format_efi(&self, partition: &str) -> (r: Step)
        ensures
            r@ == StepModel::run(format_efi_command(partition@), FailurePolicy::Disk, self.dry_run),
    {
        self.run(Command::new("mkfs.vfat").arg("-F32").arg("-n").arg("EFI").arg(partition))
    }

    /// Create swap on a partition
    pub fn create_swap(&self, partition: &str) -> (r: Step)
        ensures
            r@ == StepModel::run(make_swap_command(partition@), FailurePolicy::Disk, self.dry_run),
    {
        self.run(Command::new("mkswap").arg(partition))
    }
}

} // verus!
