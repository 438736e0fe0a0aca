//! Pre-flight validation checks
//!
//! Validation is a function of the configuration and of facts about the
//! system that were gathered beforehand; it touches nothing itself.

use crate::command::Outcome;
use crate::config::Config;
use crate::disk::block_device::{
    device_of, reading_view, BlockDevice, BlockDeviceModel, DeviceAttributes,
};
use crate::disk::discovery::{attributes_at, base_name, dereferenced, device_name};
use crate::error::{ErrorModel, InstallerError};
use crate::size::{byte_size_text, format_byte_size};
use crate::system::memory::{get_system_memory_kb, memory_reading};
use crate::system::probe::{is_root, is_uefi};
use crate::text::{decimal, decimal_string, framed, joined, views};
use crate::zfs::tools::check_zfs_available;
use vstd::prelude::*;
use vstd::string::*;

verus! {

/// Memory below which a warning is given, in GB.
pub const RECOMMENDED_MEMORY_GB: u64 = 2;

/// Validation result
#[derive(Debug)]
pub struct ValidationResult {
    pub passed: bool,
    pub errors: Vec<String>,
    pub warnings: Vec<String>,
}

/// What a validation found, as lists of messages.
pub ghost struct Findings {
    pub errors: Seq<Seq<char>>,
    pub warnings: Seq<Seq<char>>,
}

impl Findings {
    /// Nothing found.
    pub open spec fn none() -> Findings {
        Findings { errors: Seq::empty(), warnings: Seq::empty() }
    }

    /// These findings and then `later`.
    pub open spec fn followed_by(self, later: Findings) -> Findings {
        Findings { errors: self.errors + later.errors, warnings: self.warnings + later.warnings }
    }

    /// These findings and one more error.
    pub open spec fn with_error(self, message: Seq<char>) -> Findings {
        Findings { errors: self.errors.push(message), warnings: self.warnings }
    }

    /// These findings and one more warning.
    pub open spec fn with_warning(self, message: Seq<char>) -> Findings {
        Findings { errors: self.errors, warnings: self.warnings.push(message) }
    }
}

impl View for ValidationResult {
    type V = Findings;

    open spec fn view(&self) -> Findings {
        Findings { errors: views(self.errors@), warnings: views(self.warnings@) }
    }
}

impl ValidationResult {
    /// The result has passed exactly when it holds no error.
    pub open spec fn wf(&self) -> bool {
        self.passed == (self.errors@.len() == 0)
    }

    /// Create a new validation result
    pub fn new() -> (r: Self)
        ensures
            r.wf(),
            r.passed,
            r@ == Findings::none(),
    {
        let r = ValidationResult { passed: true, errors: Vec::new(), warnings: Vec::new() };
        assert(r@.errors =~= Seq::empty() && r@.warnings =~= Seq::empty());
        r
    }

    /// Add an error
    pub fn add_error(&mut self, msg: String)
        ensures
            final(self).wf(),
            !final(self).passed,
            final(self)@ == old(self)@.with_error(msg@),
    {
        self.passed = false;
        self.errors.push(msg);
        assert(self@.errors =~= old(self)@.errors.push(msg@));
    }

    /// Add a warning
    pub fn add_warning(&mut self, msg: String)
        ensures
            final(self).wf() == old(self).wf(),
            final(self).passed == old(self).passed,
            final(self)@ == old(self)@.with_warning(msg@),
    {
        self.warnings.push(msg);
        assert(self@.warnings =~= old(self)@.warnings.push(msg@));
    }

    /// Check if validation passed
    pub fn is_ok(&self) -> (r: bool)
        ensures
            r == self.passed,
    {
        self.passed
    }
}

impl Default for ValidationResult {
    fn default() -> (r: Self)
        ensures
            r.wf(),
            r.passed,
            r@ == Findings::none(),
    {
        ValidationResult::new()
    }
}

/// Which of the tools that an installation runs were found.
#[derive(Debug, Clone, Copy)]
pub struct RequiredTools {
    pub sgdisk: bool,
    pub mkfs_vfat: bool,
    pub zpool: bool,
    pub zfs: bool,
}

/// Facts about the system on which the installation is to run, gathered
/// before validation.
#[derive(Debug)]
pub struct SystemFacts {
    /// The program runs as root.
    pub is_root: bool,
    /// The system was booted in UEFI mode.
    pub is_uefi: bool,
    /// The configured source root is there.
    pub source_root_exists: bool,
    /// How asking the ZFS tools for their version ended.
    pub zfs_version: Outcome,
    /// The mount table, or the message with which reading it failed.
    pub mounts: Result<String, String>,
    /// The kernel's memory table, or the message with which reading it
    /// failed.
    pub memory: Result<String, String>,
    /// Which required tools were found.
    pub tools: RequiredTools,
    /// For each configured device in turn, what was read of the device
    /// that the base name of its path names.
    pub devices: Vec<DeviceAttributes>,
}

impl SystemFacts {
    /// The facts about the system: what was read beforehand, and whether
    /// the program runs as root on a system that was booted in UEFI mode,
    /// which is asked now.
    pub fn gather(
        source_root_exists: bool,
        zfs_version: Outcome,
        mounts: Result<String, String>,
        memory: Result<String, String>,
        tools: RequiredTools,
        devices: Vec<DeviceAttributes>,
    ) -> (r: Self)
        ensures
            r.source_root_exists == source_root_exists,
            r.zfs_version == zfs_version,
            r.mounts == mounts,
            r.memory == memory,
            r.tools == tools,
            r.devices == devices,
    {
        SystemFacts {
            is_root: is_root(),
            is_uefi: is_uefi(),
            source_root_exists,
            zfs_version,
            mounts,
            memory,
            tools,
            devices,
        }
    }

    /// The ZFS tools ran and succeeded.
    pub open spec fn zfs_available(&self) -> bool {
        self.zfs_version matches Outcome::Exited(output) && output.succeeded()
    }
}

/// The errors for missing privileges and the wrong boot mode.
pub open spec fn environment_errors(is_root: bool, is_uefi: bool) -> Seq<Seq<char>> {
    (if is_root {
        Seq::<Seq<char>>::empty()
    } else {
        seq!["This program must be run as root"@]
    }) + (if is_uefi {
        Seq::<Seq<char>>::empty()
    } else {
        seq!["System must be booted in UEFI mode"@]
    })
}

/// The errors for the rules that the configuration breaks, one for each.
pub open spec fn configuration_errors(violations: Seq<Seq<char>>) -> Seq<Seq<char>> {
    violations.map_values(|v: Seq<char>| "Configuration error: Validation failed: "@ + v)
}

/// The error for a system without ZFS.
pub open spec fn zfs_errors(available: bool) -> Seq<Seq<char>> {
    if available {
        Seq::empty()
    } else {
        seq!["ZFS is not available on this system. Please install ZFS first."@]
    }
}

/// The errors for the required tools that were not found.
pub open spec fn tool_errors(tools: RequiredTools) -> Seq<Seq<char>> {
    (if tools.sgdisk {
        Seq::<Seq<char>>::empty()
    } else {
        seq!["Required command not found: sgdisk"@]
    }) + (if tools.mkfs_vfat {
        Seq::<Seq<char>>::empty()
    } else {
        seq!["Required command not found: mkfs.vfat"@]
    }) + (if tools.zpool {
        Seq::<Seq<char>>::empty()
    } else {
        seq!["Required command not found: zpool"@]
    }) + (if tools.zfs {
        Seq::<Seq<char>>::empty()
    } else {
        seq!["Required command not found: zfs"@]
    })
}

/// The warning for a system with little memory, given its memory in KB.
pub open spec fn memory_warnings(kb: nat) -> Seq<Seq<char>> {
    let gb = kb / (1024 * 1024);
    if gb < RECOMMENDED_MEMORY_GB {
        seq![
            "System has only "@ + decimal(gb) + "GB of RAM. ZFS recommends at least 2GB."@,
        ]
    } else {
        Seq::empty()
    }
}

/// The smallest size that is asked of a device, as it is shown.
pub open spec fn shown_minimum(config: &Config) -> Seq<char> {
    byte_size_text(
        if config.required_bytes() > u64::MAX {
            u64::MAX
        } else {
            config.required_bytes() as u64
        },
    )
}

/// What is found of a device that could be read. A removable device is
/// admitted with a warning where `force` is set; every other reason
/// against the device stands, force or not. A device that does not hold
/// EFI, swap and the pool's minimum is too small.
pub open spec fn device_findings(
    config: &Config,
    mounts: Result<Seq<char>, Seq<char>>,
    device: BlockDeviceModel,
) -> Findings {
    let warned = if device.removable && config.force {
        Findings::none().with_warning(
            "Device "@ + device.path + " is removable but --force was specified"@,
        )
    } else {
        Findings::none()
    };
    let judged = match device.unsuitability(mounts, config.force) {
        Some(e) => warned.with_error(e.message()),
        None => warned,
    };
    if device.size < config.required_bytes() {
        judged.with_error(
            "Device "@ + device.path + " is too small ("@ + byte_size_text(device.size as u64)
                + ", need at least "@ + shown_minimum(config) + ")"@,
        )
    } else {
        judged
    }
}

/// What is found for one configured path: the findings of the device that
/// it names, an error where the device cannot be read, and nothing but a
/// failure where the path has no base name.
pub open spec fn path_findings(
    config: &Config,
    mounts: Result<Seq<char>, Seq<char>>,
    path: Seq<char>,
    attributes: Option<DeviceAttributes>,
) -> Result<Findings, ErrorModel> {
    match base_name(path) {
        None => Err(ErrorModel::DeviceNotFound(path)),
        Some(name) => {
            let reading = match attributes {
                Some(attrs) => device_of(name, &attrs),
                None => Err(ErrorModel::DeviceNotFound("/dev/"@ + name)),
            };
            match reading {
                Ok(device) => Ok(device_findings(config, mounts, device)),
                Err(e) => Ok(
                    Findings::none().with_error("Device "@ + path + ": "@ + e.message()),
                ),
            }
        },
    }
}

/// What is found for the first `count` configured paths, and the failure
/// that ended the walk where one did: the walk ends at the first path
/// without base name.
pub open spec fn paths_findings(config: &Config, facts: &SystemFacts, count: nat) -> (
    Findings,
    Option<ErrorModel>,
)
    decreases count,
{
    if count == 0 {
        (Findings::none(), None)
    } else {
        let before = paths_findings(config, facts, (count - 1) as nat);
        match before.1 {
            Some(e) => before,
            None => match path_findings(
                config,
                reading_view(&facts.mounts),
                config.devices@[count - 1]@,
                attributes_at(facts.devices@, count - 1),
            ) {
                Ok(found) => (before.0.followed_by(found), None),
                Err(e) => (before.0, Some(e)),
            },
        }
    }
}

/// What is found for the configured devices; a walk that a failure ended
/// adds one error that says so.
pub open spec fn devices_findings(config: &Config, facts: &SystemFacts) -> Findings {
    let walked = paths_findings(config, facts, config.devices@.len());
    match walked.1 {
        Some(e) => walked.0.with_error("Device validation failed: "@ + e.message()),
        None => walked.0,
    }
}

/// Everything that validation finds, where the memory table gives `kb` KB
/// of memory.
pub open spec fn all_findings(config: &Config, facts: &SystemFacts, kb: nat) -> Findings {
    let devices = devices_findings(config, facts);
    Findings {
        errors: environment_errors(facts.is_root, facts.is_uefi) + configuration_errors(
            config.all_violations(facts.source_root_exists),
        ) + zfs_errors(facts.zfs_available()) + devices.errors + tool_errors(facts.tools),
        warnings: devices.warnings + memory_warnings(kb),
    }
}

/// System validator
#[derive(Debug)]
pub struct Validator {
    pub config: Config,
}

impl Validator {
    /// Create a new validator
    pub fn new(config: Config) -> (r: Self)
        ensures
            r.config == config,
    {
        Validator { config }
    }

    /// Run all validation checks against the facts that were gathered.
    /// See [`Validator::check`].
    pub fn validate(&self, facts: &SystemFacts) -> (r: Result<ValidationResult, InstallerError>)
        ensures
            match r {
                Ok(result) => {
                    &&& memory_reading(reading_view(&facts.memory)) is Ok
                    &&& result@ == all_findings(
                        &self.config,
                        facts,
                        memory_reading(reading_view(&facts.memory))->Ok_0,
                    )
                    &&& result.wf()
                },
                Err(e) => memory_reading(reading_view(&facts.memory)) == Err::<nat, ErrorModel>(e@),
            },
    {
        Self::check(&self.config, facts)
    }

    /// Run all validation checks of `config` against the facts that were
    /// gathered.
    /// The checks fail as a whole only where the memory table cannot be
    /// had; everything else is reported in the result, errors and
    /// warnings each in the order of the checks.
    pub fn check(config: &Config, facts: &SystemFacts) -> (r: Result<ValidationResult, InstallerError>)
        ensures
            match r {
                Ok(result) => {
                    &&& memory_reading(reading_view(&facts.memory)) is Ok
                    &&& result@ == all_findings(
                        config,
                        facts,
                        memory_reading(reading_view(&facts.memory))->Ok_0,
                    )
                    &&& result.wf()
                },
                Err(e) => memory_reading(reading_view(&facts.memory)) == Err::<nat, ErrorModel>(e@),
            },
    {
        let mut result = ValidationResult::new();

        if !facts.is_root {
            result.add_error(String::from_str("This program must be run as root"));
        }
        if !facts.is_uefi {
            result.add_error(String::from_str("System must be booted in UEFI mode"));
        }
        assert(result@.errors =~= environment_errors(facts.is_root, facts.is_uefi));
        assert(result@.warnings =~= Seq::empty());

        Self::validate_config(config, facts.source_root_exists, &mut result);

        match check_zfs_available(&facts.zfs_version) {
            Ok(true) => {},
            _ => {
                result.add_error(
                    String::from_str(
                        "ZFS is not available on this system. Please install ZFS first.",
                    ),
                );
            },
        }
        let ghost head = environment_errors(facts.is_root, facts.is_uefi) + configuration_errors(
            config.all_violations(facts.source_root_exists),
        ) + zfs_errors(facts.zfs_available());
        assert(result@.errors =~= head);

        let ghost before = result@;
        match Self::validate_devices(config, facts, &mut result) {
            Ok(()) => {},
            Err(e) => {
                let text = e.to_string();
                result.add_error(joined("Device validation failed: ", text.as_str()));
            },
        }
        assert(result@ == before.followed_by(devices_findings(config, facts))) by {
            let found = devices_findings(config, facts);
            assert(result@.errors =~= before.errors + found.errors);
            assert(result@.warnings =~= before.warnings + found.warnings);
        }

        match Self::check_system_requirements(facts, &mut result) {
            Ok(()) => {},
            Err(e) => {
                return Err(e);
            },
        }
        proof {
            let kb = memory_reading(reading_view(&facts.memory))->Ok_0;
            let all = all_findings(config, facts, kb);
            assert(result@.errors =~= all.errors);
            assert(result@.warnings =~= all.warnings);
        }
        Ok(result)
    }

    /// Adds one error for each rule that the configuration breaks.
    fn validate_config(config: &Config, source_root_exists: bool, result: &mut ValidationResult)
        requires
            old(result).wf(),
        ensures
            final(result).wf(),
            final(result)@.warnings == old(result)@.warnings,
            final(result)@.errors == old(result)@.errors + configuration_errors(
                config.all_violations(source_root_exists),
            ),
    {
        let found = config.violations(source_root_exists);
        let ghost all = views(found@);
        let ghost start = result@.errors;
        assert(start + configuration_errors(all.take(0)) =~= start);
        let mut i: usize = 0;
        while i < found.len()
            invariant
                i <= found.len(),
                all == views(found@),
                result.wf(),
                result@.warnings == old(result)@.warnings,
                result@.errors == start + configuration_errors(all.take(i as int)),
            decreases found.len() - i,
        {
            result.add_error(
                joined("Configuration error: Validation failed: ", found[i].as_str()),
            );
            assert(result@.errors =~= start + configuration_errors(all.take(i + 1)));
            i += 1;
        }
        assert(all.take(found.len() as int) =~= all);
    }

    /// Validate one device that could be read.
    fn validate_device(
        config: &Config,
        device: &BlockDevice,
        mounts: &Result<String, String>,
        result: &mut ValidationResult,
    )
        requires
            old(result).wf(),
        ensures
            final(result).wf(),
            final(result)@ == old(result)@.followed_by(
                device_findings(config, reading_view(mounts), device@),
            ),
    {
        let ghost start = result@;
        if device.removable && config.force {
            result.add_warning(
                framed(
                    "Device ",
                    device.path.as_str(),
                    " is removable but --force was specified",
                ),
            );
        }
        if let Err(e) = device.check_suitability(mounts, config.force) {
            result.add_error(e.to_string());
        }
        if config.is_too_small(device.size) {
            let shown_size = device.size_human();
            let shown_min = format_byte_size(config.min_device_size());
            let mut msg = framed("Device ", device.path.as_str(), " is too small (");
            msg.append(shown_size.as_str());
            msg.append(", need at least ");
            msg.append(shown_min.as_str());
            msg.append(")");
            result.add_error(msg);
        }
        proof {
            let found = device_findings(config, reading_view(mounts), device@);
            assert(result@.errors =~= start.errors + found.errors);
            assert(result@.warnings =~= start.warnings + found.warnings);
        }
    }

    /// Validate the device that one configured path names.
    fn validate_path(
        config: &Config,
        path: &str,
        attributes: Option<&DeviceAttributes>,
        mounts: &Result<String, String>,
        result: &mut ValidationResult,
    ) -> (r: Result<(), InstallerError>)
        requires
            old(result).wf(),
        ensures
            final(result).wf(),
            match r {
                Ok(()) => path_findings(
                    config,
                    reading_view(mounts),
                    path@,
                    dereferenced(attributes),
                ) is Ok && final(result)@ == old(result)@.followed_by(
                    path_findings(
                        config,
                        reading_view(mounts),
                        path@,
                        dereferenced(attributes),
                    )->Ok_0,
                ),
                Err(e) => path_findings(
                    config,
                    reading_view(mounts),
                    path@,
                    dereferenced(attributes),
                ) == Err::<Findings, ErrorModel>(e@) && final(result)@ == old(result)@,
            },
    {
        let ghost start = result@;
        match device_name(path) {
            None => Err(InstallerError::DeviceNotFound(String::from_str(path))),
            Some(name) => {
                let reading = match attributes {
                    Some(attrs) => BlockDevice::from_name(name.as_str(), attrs),
                    None => Err(InstallerError::DeviceNotFound(joined("/dev/", name.as_str()))),
                };
                match reading {
                    Ok(device) => {
                        Self::validate_device(config, &device, mounts, result);
                    },
                    Err(e) => {
                        let text = e.to_string();
                        let mut msg = framed("Device ", path, ": ");
                        msg.append(text.as_str());
                        result.add_error(msg);
                        proof {
                            let found = Findings::none().with_error(
                                "Device "@ + path@ + ": "@ + e@.message(),
                            );
                            assert(result@.errors =~= start.errors + found.errors);
                            assert(result@.warnings =~= start.warnings + found.warnings);
                        }
                    },
                }
                Ok(())
            },
        }
    }

    /// Validate selected devices
    fn validate_devices(config: &Config, facts: &SystemFacts, result: &mut ValidationResult) -> (r: Result<
        (),
        InstallerError,
    >)
        requires
            old(result).wf(),
        ensures
            final(result).wf(),
            final(result)@ == old(result)@.followed_by(
                paths_findings(config, facts, config.devices@.len()).0,
            ),
            match r {
                Ok(()) => paths_findings(config, facts, config.devices@.len()).1
                    is None,
                Err(e) => paths_findings(config, facts, config.devices@.len()).1
                    == Some(e@),
            },
    {
        let ghost start = result@;
        proof {
            let none = Findings::none();
            assert(start.errors + none.errors =~= start.errors);
            assert(start.warnings + none.warnings =~= start.warnings);
        }
        let mut i: usize = 0;
        while i < config.devices.len()
            invariant
                i <= config.devices.len(),
                result.wf(),
                start == old(result)@,
                paths_findings(config, facts, i as nat).1 is None,
                result@ == start.followed_by(paths_findings(config, facts, i as nat).0),
            decreases config.devices.len() - i,
        {
            let read: Option<&DeviceAttributes> = if i < facts.devices.len() {
                Some(&facts.devices[i])
            } else {
                None
            };
            let ghost before = paths_findings(config, facts, i as nat);
            let ghost at = result@;
            match Self::validate_path(config, config.devices[i].as_str(), read, &facts.mounts, result) {
                Ok(()) => {
                    proof {
                        let after = paths_findings(config, facts, (i + 1) as nat);
                        assert(result@.errors =~= start.errors + after.0.errors);
                        assert(result@.warnings =~= start.warnings + after.0.warnings);
                    }
                },
                Err(e) => {
                    proof {
                        let count = config.devices@.len();
                        let after = paths_findings(config, facts, (i + 1) as nat);
                        assert(after.1 == Some(e@));
                        assert(after.0 == before.0);
                        assert(result@ == at);
                        lemma_walk_ends(config, facts, (i + 1) as nat, count);
                    }
                    return Err(e);
                },
            }
            i += 1;
        }
        Ok(())
    }

    /// Check system requirements
    fn check_system_requirements(facts: &SystemFacts, result: &mut ValidationResult) -> (r:
        Result<(), InstallerError>)
        requires
            old(result).wf(),
        ensures
            final(result).wf(),
            match r {
                Ok(()) => {
                    &&& memory_reading(reading_view(&facts.memory)) is Ok
                    &&& final(result)@.errors == old(result)@.errors + tool_errors(facts.tools)
                    &&& final(result)@.warnings == old(result)@.warnings + memory_warnings(
                        memory_reading(reading_view(&facts.memory))->Ok_0,
                    )
                },
                Err(e) => memory_reading(reading_view(&facts.memory)) == Err::<nat, ErrorModel>(e@),
            },
    {
        let mem_kb = match get_system_memory_kb(&facts.memory) {
            Ok(kb) => kb,
            Err(e) => {
                return Err(e);
            },
        };
        let mem_gb = mem_kb / (1024 * 1024);
        let ghost start = result@;
        if mem_gb < RECOMMENDED_MEMORY_GB {
            result.add_warning(
                framed(
                    "System has only ",
                    decimal_string(mem_gb).as_str(),
                    "GB of RAM. ZFS recommends at least 2GB.",
                ),
            );
        }
        assert(result@.warnings =~= start.warnings + memory_warnings(mem_kb as nat));
        if !facts.tools.sgdisk {
            result.add_error(String::from_str("Required command not found: sgdisk"));
        }
        if !facts.tools.mkfs_vfat {
            result.add_error(String::from_str("Required command not found: mkfs.vfat"));
        }
        if !facts.tools.zpool {
            result.add_error(String::from_str("Required command not found: zpool"));
        }
        if !facts.tools.zfs {
            result.add_error(String::from_str("Required command not found: zfs"));
        }
        assert(result@.errors =~= start.errors + tool_errors(facts.tools));
        Ok(())
    }
}

/// A walk that a failure ended stays as it is however many further paths
/// there are.
pub proof fn lemma_walk_ends(config: &Config, facts: &SystemFacts, ended: nat, count: nat)
    requires
        ended <= count,
        paths_findings(config, facts, ended).1 is Some,
    ensures
        paths_findings(config, facts, count) == paths_findings(config, facts, ended),
    decreases count,
{
    if count > ended {
        lemma_walk_ends(config, facts, ended, (count - 1) as nat);
    }
}

} // verus!
