//! ZFS pool creation and management

use crate::command::{Command, CommandModel, Executor, FailurePolicy, Outcome, Step, StepModel};
use crate::config::{Compression, RaidLevel};
use crate::error::InstallerError;
use crate::text::{decimal, decimal_string, framed, joined, views};
use vstd::prelude::*;
use vstd::string::*;

verus! {

/// The option that sets the pool's ashift, where one is given; without it
/// the tool detects the sector size itself.
pub open spec fn ashift_args(ashift: Option<u8>) -> Seq<Seq<char>> {
    match ashift {
        Some(a) => seq!["-o"@, "ashift="@ + decimal(a as nat)],
        None => Seq::empty(),
    }
}

/// The properties that every dataset of the pool inherits: POSIX ACLs,
/// extended attributes as system attributes, automatic dnode size, the
/// chosen compression, Unicode normalisation form D and relative atime.
pub open spec fn pool_property_args(compression: Compression) -> Seq<Seq<char>> {
    seq![
        "-O"@,
        "acltype=posixacl"@,
        "-O"@,
        "xattr=sa"@,
        "-O"@,
        "dnodesize=auto"@,
        "-O"@,
        "compression="@ + compression.name(),
        "-O"@,
        "normalization=formD"@,
        "-O"@,
        "relatime=on"@,
    ]
}

/// The vdev keyword of a RAID level, where it has one.
pub open spec fn vdev_args(raid_level: RaidLevel) -> Seq<Seq<char>> {
    match raid_level.vdev_keyword() {
        Some(word) => seq![word],
        None => Seq::empty(),
    }
}

/// `zpool create -f -m none [-o ashift=N] -O ... name [vdev] devices...`
pub open spec fn create_pool_command(
    name: Seq<char>,
    raid_level: RaidLevel,
    devices: Seq<Seq<char>>,
    ashift: Option<u8>,
    compression: Compression,
) -> CommandModel {
    CommandModel {
        program: "zpool"@,
        args: seq!["create"@, "-f"@, "-m"@, "none"@] + ashift_args(ashift) + pool_property_args(
            compression,
        ) + seq![name] + vdev_args(raid_level) + devices,
    }
}

/// `zpool destroy -f name`
pub open spec fn destroy_pool_command(name: Seq<char>) -> CommandModel {
    CommandModel::bare("zpool"@).with("destroy"@).with("-f"@).with(name)
}

/// `zpool export name`
pub open spec fn export_pool_command(name: Seq<char>) -> CommandModel {
    CommandModel::bare("zpool"@).with("export"@).with(name)
}

/// `zpool import -f name`
pub open spec fn import_pool_command(name: Seq<char>) -> CommandModel {
    CommandModel::bare("zpool"@).with("import"@).with("-f"@).with(name)
}

/// `zpool set bootfs=name/dataset name`
pub open spec fn set_bootfs_command(name: Seq<char>, dataset: Seq<char>) -> CommandModel {
    CommandModel::bare("zpool"@).with("set"@).with("bootfs="@ + name + "/"@ + dataset).with(name)
}

/// `zpool status name`
pub open spec fn pool_status_command(name: Seq<char>) -> CommandModel {
    CommandModel::bare("zpool"@).with("status"@).with(name)
}

/// `zpool list name`
pub open spec fn list_pool_command(name: Seq<char>) -> CommandModel {
    CommandModel::bare("zpool"@).with("list"@).with(name)
}

/// The status text that an outcome of the status step holds.
pub open spec fn shown_status(dry_run: bool, outcome: &Outcome) -> Seq<char> {
    match outcome {
        Outcome::Exited(output) => if dry_run {
            Seq::empty()
        } else {
            output.stdout@
        },
        _ => Seq::empty(),
    }
}

/// ZFS pool manager
#[derive(Debug)]
pub struct ZfsPool {
    /// Pool name
    pub name: String,
    /// RAID level
    pub raid_level: RaidLevel,
    /// Devices to use
    pub devices: Vec<String>,
    /// ashift value
    pub ashift: Option<u8>,
    /// Compression algorithm
    pub compression: Compression,
    /// Dry run mode
    pub dry_run: bool,
}

impl ZfsPool {
    /// Create a new ZFS pool configuration
    pub fn new(
        name: String,
        raid_level: RaidLevel,
        devices: Vec<String>,
        ashift: Option<u8>,
        compression: Compression,
        dry_run: bool,
    ) -> (r: Self)
        ensures
            r.name == name,
            r.raid_level == raid_level,
            r.devices == devices,
            r.ashift == ashift,
            r.compression == compression,
            r.dry_run == dry_run,
    {
        ZfsPool { name, raid_level, devices, ashift, compression, dry_run }
    }

    fn run(&self, command: Command) -> (r: Step)
        ensures
            r@ == StepModel::run(command@, FailurePolicy::Zfs, self.dry_run),
    {
        Executor::new(self.dry_run).run(command, FailurePolicy::Zfs)
    }

    /// Create the ZFS pool: one forced `zpool create` that mounts nothing,
    /// over a single device or a vdev of the RAID level's kind.
    pub fn create(&self) -> (r: Step)
        ensures
            r@ == StepModel::run(
                create_pool_command(
                    self.name@,
                    self.raid_level,
                    views(self.devices@),
                    self.ashift,
                    self.compression,
                ),
                FailurePolicy::Zfs,
                self.dry_run,
            ),
    {
        let mut cmd = Command::new("zpool").arg("create").arg("-f").arg("-m").arg("none");
        assert(cmd@.args =~= seq!["create"@, "-f"@, "-m"@, "none"@]);
        if let Some(ashift) = self.ashift {
            let setting = joined("ashift=", decimal_string(ashift as u64).as_str());
            cmd = cmd.arg("-o").arg(setting.as_str());
        }
        assert(cmd@.args =~= seq!["create"@, "-f"@, "-m"@, "none"@] + ashift_args(self.ashift));
        let ghost head = cmd@.args;
        let compression = joined("compression=", self.compression.as_str());
        cmd = cmd.arg("-O").arg("acltype=posixacl").arg("-O").arg("xattr=sa").arg("-O").arg(
            "dnodesize=auto",
        ).arg("-O").arg(compression.as_str()).arg("-O").arg("normalization=formD").arg("-O").arg(
            "relatime=on",
        );
        assert(cmd@.args =~= head + pool_property_args(self.compression));
        cmd = cmd.arg(self.name.as_str());
        if let Some(vdev_type) = self.raid_level.vdev_type() {
            cmd = cmd.arg(vdev_type);
        }
        let ghost fixed = head + pool_property_args(self.compression) + seq![self.name@]
            + vdev_args(self.raid_level);
        assert(cmd@.args =~= fixed);
        let ghost devices = views(self.devices@);
        assert(fixed + devices.take(0) =~= fixed);
        let mut i: usize = 0;
        while i < self.devices.len()
            invariant
                i <= self.devices.len(),
                devices == views(self.devices@),
                cmd@.program == "zpool"@,
                cmd@.args == fixed + devices.take(i as int),
            decreases self.devices.len() - i,
        {
            cmd = cmd.arg(self.devices[i].as_str());
            assert(cmd@.args =~= fixed + devices.take(i + 1));
            i += 1;
        }
        assert(devices.take(self.devices.len() as int) =~= devices);
        self.run(cmd)
    }

    /// Destroy the pool (for testing/cleanup)
    pub fn destroy(&self) -> (r: Step)
        ensures
            r@ == StepModel::run(
                destroy_pool_command(self.name@),
                FailurePolicy::Zfs,
                self.dry_run,
            ),
    {
        self.run(Command::new("zpool").arg("destroy").arg("-f").arg(self.name.as_str()))
    }

    /// Export the pool
    pub fn export(&self) -> (r: Step)
        ensures
            r@ == StepModel::run(export_pool_command(self.name@), FailurePolicy::Zfs, self.dry_run),
    {
        self.run(Command::new("zpool").arg("export").arg(self.name.as_str()))
    }

    /// Import the pool
    pub fn import(&self) -> (r: Step)
        ensures
            r@ == StepModel::run(import_pool_command(self.name@), FailurePolicy::Zfs, self.dry_run),
    {
        self.run(Command::new("zpool").arg("import").arg("-f").arg(self.name.as_str()))
    }

    /// Set bootfs property
    pub fn set_bootfs(&self, dataset: &str) -> (r: Step)
        ensures
            r@ == StepModel::run(
                set_bootfs_command(self.name@, dataset@),
                FailurePolicy::Zfs,
                self.dry_run,
            ),
    {
        let mut setting = framed("bootfs=", self.name.as_str(), "/");
        setting.append(dataset);
        self.run(Command::new("zpool").arg("set").arg(setting.as_str()).arg(self.name.as_str()))
    }

    /// Get pool status: the step whose standard output is the status.
    pub fn status(&self) -> (r: Step)
        ensures
            r@ == StepModel::run(pool_status_command(self.name@), FailurePolicy::Zfs, self.dry_run),
    {
        self.run(Command::new("zpool").arg("status").arg(self.name.as_str()))
    }

    /// The status that the outcome of the status step holds: what the tool
    /// wrote to its standard output, and nothing in a dry run. A tool
    /// that failed is a ZFS error.
    pub fn status_text(&self, outcome: &Outcome) -> (r: Result<String, InstallerError>)
        ensures
            match r {
                Ok(text) => {
                    &&& StepModel::run(
                        pool_status_command(self.name@),
                        FailurePolicy::Zfs,
                        self.dry_run,
                    ).verdict(outcome@) is None
                    &&& text@ == shown_status(self.dry_run, outcome)
                },
                Err(e) => StepModel::run(
                    pool_status_command(self.name@),
                    FailurePolicy::Zfs,
                    self.dry_run,
                ).verdict(outcome@) == Some(e@),
            },
    {
        match self.status().settle(outcome) {
            Err(e) => Err(e),
            Ok(()) => {
                if self.dry_run {
                    Ok(String::new())
                } else {
                    match outcome {
                        Outcome::Exited(output) => Ok(output.stdout.clone()),
                        _ => Ok(String::new()),
                    }
                }
            },
        }
    }

    /// The command that lists the pool; it succeeds when the pool exists.
    pub fn list_command(&self) -> (r: Command)
        ensures
            r@ == list_pool_command(self.name@),
    {
        Command::new("zpool").arg("list").arg(self.name.as_str())
    }

    /// Check if pool exists, from the outcome of listing it: it does when
    /// the listing ran and succeeded.
    pub fn is_present(&self, listing: &Outcome) -> (r: bool)
        ensures
            r == (listing matches Outcome::Exited(output) && output.succeeded()),
    {
        match listing {
            Outcome::Exited(output) => output.success(),
            _ => false,
        }
    }
}

} // verus!
