//! The installation engine.
//!
//! An installation is a strict sequence of phases. The engine decides;
//! it never acts. Each call of [`Installer::install`] takes the answer to
//! what the engine asked last and gives the next [`Action`]: a phase to
//! announce, facts to gather, a device to read, a step to carry out. The
//! first failure ends the run, and nothing that was done is undone: an
//! installation that fails on its second device leaves the first one
//! partitioned.

use crate::bootloader::systemd_boot::{systemd_boot_steps, SystemdBoot};
use crate::bootloader::zbm::{zbm_plan, InitramfsTools, ZbmInstaller};
use crate::command::{
    step_models, Executor, FailurePolicy, Outcome, Plan, PlanModel, Step, StepModel,
};
use crate::config::{holds_text, joined_messages, Config, InstallMode, MIN_EFI_SIZE};
use crate::disk::block_device::{device_of, reading_view, BlockDevice, DeviceAttributes};
use crate::disk::discovery::{base_name, device_name};
use crate::disk::operations::{
    disk_steps, format_efi_command, layout_commands, layout_partitions, make_swap_command,
    DiskOperations, ZbmPartitions, ZbmPartitionsModel,
};
use crate::error::{ErrorModel, InstallerError};
use crate::system::memory::{memory_reading, sync, sync_command};
use crate::text::views;
use crate::validation::{all_findings, Findings, SystemFacts, ValidationResult, Validator};
use crate::zfs::dataset::{layout_steps, mount_command, snapshot_command, DatasetManager};
use crate::zfs::pool::{create_pool_command, set_bootfs_command, ZfsPool};
use vstd::prelude::*;
use vstd::string::*;

verus! {

/// Where the EFI system partition is mounted during the installation.
pub const EFI_MOUNTPOINT: &'static str = "/mnt/boot/efi";

/// The default boot environment, relative to the pool.
pub const BOOT_ENVIRONMENT: &'static str = "ROOT/default";

/// Name of the snapshot that is taken of the finished installation.
pub const FIRST_SNAPSHOT: &'static str = "initial";

/// The phases of an installation, in their order.
#[derive(Debug, Clone, Copy, PartialEq, Eq, Structural)]
pub enum Phase {
    /// Pre-flight checks.
    Validate,
    /// Partitioning and formatting, device by device.
    PrepareDisks,
    /// Pool and datasets.
    CreateZfs,
    /// Mounting the default boot environment.
    MountFilesystem,
    /// Migration of an existing system.
    MigrateSystem,
    /// ZFSBootMenu and systemd-boot.
    InstallBootloader,
    /// Boot file system, first snapshot, sync.
    Finalize,
}

impl Phase {
    /// Position in the order of the phases, from 1.
    pub open spec fn rank(self) -> nat {
        match self {
            Phase::Validate => 1,
            Phase::PrepareDisks => 2,
            Phase::CreateZfs => 3,
            Phase::MountFilesystem => 4,
            Phase::MigrateSystem => 5,
            Phase::InstallBootloader => 6,
            Phase::Finalize => 7,
        }
    }

    /// The phase that follows this one in an installation of mode `mode`,
    /// if one follows: migration is entered for existing systems only.
    pub open spec fn successor(self, mode: InstallMode) -> Option<Phase> {
        match self {
            Phase::Validate => Some(Phase::PrepareDisks),
            Phase::PrepareDisks => Some(Phase::CreateZfs),
            Phase::CreateZfs => Some(Phase::MountFilesystem),
            Phase::MountFilesystem => if mode == InstallMode::Existing {
                Some(Phase::MigrateSystem)
            } else {
                Some(Phase::InstallBootloader)
            },
            Phase::MigrateSystem => Some(Phase::InstallBootloader),
            Phase::InstallBootloader => Some(Phase::Finalize),
            Phase::Finalize => None,
        }
    }

    /// What the phase is called in the log.
    pub open spec fn label(self) -> Seq<char> {
        match self {
            Phase::Validate => "Validation"@,
            Phase::PrepareDisks => "Preparing disks"@,
            Phase::CreateZfs => "Creating ZFS pool"@,
            Phase::MountFilesystem => "Mounting filesystem"@,
            Phase::MigrateSystem => "Migrating existing system"@,
            Phase::InstallBootloader => "Installing bootloader"@,
            Phase::Finalize => "Finalizing"@,
        }
    }

    /// Position in the order of the phases, from 1.
    pub fn number(&self) -> (r: u8)
        ensures
            r == self.rank(),
    {
        match self {
            Phase::Validate => 1,
            Phase::PrepareDisks => 2,
            Phase::CreateZfs => 3,
            Phase::MountFilesystem => 4,
            Phase::MigrateSystem => 5,
            Phase::InstallBootloader => 6,
            Phase::Finalize => 7,
        }
    }

    /// What the phase is called in the log.
    pub fn title(&self) -> (r: &'static str)
        ensures
            r@ == self.label(),
    {
        match self {
            Phase::Validate => "Validation",
            Phase::PrepareDisks => "Preparing disks",
            Phase::CreateZfs => "Creating ZFS pool",
            Phase::MountFilesystem => "Mounting filesystem",
            Phase::MigrateSystem => "Migrating existing system",
            Phase::InstallBootloader => "Installing bootloader",
            Phase::Finalize => "Finalizing",
        }
    }

    /// The warning that goes with entering the phase, if one does:
    /// migration is a placeholder that does nothing yet.
    pub fn caution(&self) -> (r: Option<&'static str>)
        ensures
            r is Some <==> *self == Phase::MigrateSystem,
            r matches Some(text) ==> text@ == "System migration not yet implemented"@,
    {
        match self {
            Phase::MigrateSystem => Some("System migration not yet implemented"),
            _ => None,
        }
    }

    /// The phase that follows this one in an installation of mode `mode`.
    pub fn next(&self, mode: InstallMode) -> (r: Option<Phase>)
        ensures
            r == self.successor(mode),
    {
        match self {
            Phase::Validate => Some(Phase::PrepareDisks),
            Phase::PrepareDisks => Some(Phase::CreateZfs),
            Phase::CreateZfs => Some(Phase::MountFilesystem),
            Phase::MountFilesystem => match mode {
                InstallMode::Existing => Some(Phase::MigrateSystem),
                InstallMode::New => Some(Phase::InstallBootloader),
            },
            Phase::MigrateSystem => Some(Phase::InstallBootloader),
            Phase::InstallBootloader => Some(Phase::Finalize),
            Phase::Finalize => None,
        }
    }
}

/// What the engine waits for.
#[derive(Debug, Clone, Copy, PartialEq, Eq, Structural)]
pub enum Progress {
    /// Nothing was asked yet.
    Idle,
    /// A phase was announced.
    Announced,
    /// The facts for validation were asked for.
    AwaitingFacts,
    /// The attributes of the device at the cursor were asked for.
    AwaitingDevice,
    /// The tools that build an initramfs were asked for.
    AwaitingTools,
    /// A step was handed out.
    AwaitingOutcome,
    /// The installation is complete.
    Completed,
    /// An error ended the installation.
    Aborted,
}

/// What the engine asks to be done next.
#[derive(Debug)]
pub enum Action {
    /// Note that a phase begins. Answered by [`Event::Proceed`].
    Announce(Phase),
    /// Gather the facts for validation. Answered by [`Event::Facts`].
    GatherFacts,
    /// Read the attributes of the device with this name. Answered by
    /// [`Event::Device`].
    ResolveDevice(String),
    /// Look for the tools that build an initramfs. Answered by
    /// [`Event::Tools`].
    ProbeTools,
    /// Carry out this step, or log it where it is simulated. Answered by
    /// [`Event::Outcome`].
    Perform(Step),
    /// The installation is complete.
    Finish,
    /// The installation ends with this error.
    Abort(InstallerError),
}

/// Mathematical model of an [`Action`].
pub ghost enum ActionModel {
    Announce(Phase),
    GatherFacts,
    ResolveDevice(Seq<char>),
    ProbeTools,
    Perform(StepModel),
    Finish,
    Abort(ErrorModel),
}

impl View for Action {
    type V = ActionModel;

    open spec fn view(&self) -> ActionModel {
        match self {
            Action::Announce(phase) => ActionModel::Announce(*phase),
            Action::GatherFacts => ActionModel::GatherFacts,
            Action::ResolveDevice(name) => ActionModel::ResolveDevice(name@),
            Action::ProbeTools => ActionModel::ProbeTools,
            Action::Perform(step) => ActionModel::Perform(step@),
            Action::Finish => ActionModel::Finish,
            Action::Abort(e) => ActionModel::Abort(e@),
        }
    }
}

/// The answer to the action that the engine gave last.
#[derive(Debug)]
pub enum Event {
    /// Go on: starts the installation, and answers an announcement.
    Proceed,
    /// The facts for validation.
    Facts(SystemFacts),
    /// What was read of the device that was asked for.
    Device(DeviceAttributes),
    /// The tools that were found.
    Tools(InitramfsTools),
    /// What became of the step that was handed out.
    Outcome(Outcome),
}

/// Mathematical model of the engine's state.
pub ghost struct EngineModel {
    /// The phase that the installation is in.
    pub phase: Phase,
    /// What the engine waits for.
    pub progress: Progress,
    /// How many of the configured devices are prepared.
    pub cursor: nat,
    /// The partitions of the devices that were laid out so far.
    pub partitions: Seq<ZbmPartitionsModel>,
    /// The steps of the work at hand.
    pub queue: Seq<StepModel>,
    /// How many steps of the queue are done.
    pub next: nat,
    /// The error that ends the work at hand once its steps are done.
    pub failure: Option<ErrorModel>,
    /// What the pre-flight checks found, once they were run.
    pub report: Option<Findings>,
}

/// The error for an event that does not answer what was asked.
pub open spec fn unexpected() -> ErrorModel {
    ErrorModel::Other("Unexpected event"@)
}

/// The error that is given once more after the installation was aborted.
pub open spec fn already_aborted() -> ErrorModel {
    ErrorModel::Other("Installation was aborted"@)
}

/// The error for pre-flight checks that found errors.
pub open spec fn preflight_failed() -> ErrorModel {
    ErrorModel::ValidationError("Pre-flight checks failed"@)
}

/// The steps that prepare one device: its layout, the EFI file system
/// and, where there is swap, the swap signature.
pub open spec fn device_steps(config: &Config, name: Seq<char>, path: Seq<char>) -> Seq<StepModel> {
    let parts = layout_partitions(name, path, config.swap_size);
    disk_steps(
        layout_commands(path, config.efi_size, config.swap_size) + seq![
            format_efi_command(parts.efi),
        ] + (match parts.swap {
            Some(swap) => seq![make_swap_command(swap)],
            None => Seq::empty(),
        }),
        config.dry_run,
    )
}

/// The pool's partitions among `partitions`, in their order.
pub open spec fn zfs_devices(partitions: Seq<ZbmPartitionsModel>) -> Seq<Seq<char>> {
    partitions.map_values(|p: ZbmPartitionsModel| p.zfs)
}

/// The steps that create the pool over `partitions` and then the dataset
/// hierarchy.
pub open spec fn create_zfs_steps(config: &Config, partitions: Seq<ZbmPartitionsModel>) -> Seq<
    StepModel,
> {
    seq![
        StepModel::run(
            create_pool_command(
                config.pool_name@,
                config.raid_level,
                zfs_devices(partitions),
                config.ashift,
                config.compression,
            ),
            FailurePolicy::Zfs,
            config.dry_run,
        ),
    ] + layout_steps(config.pool_name@, config.dry_run)
}

/// The steps that mount the default boot environment: none in a dry run.
pub open spec fn mount_steps(config: &Config) -> Seq<StepModel> {
    if config.dry_run {
        Seq::empty()
    } else {
        seq![
            StepModel::run(
                mount_command(config.pool_name@, BOOT_ENVIRONMENT@),
                FailurePolicy::Zfs,
                false,
            ),
        ]
    }
}

/// The installation of the boot chain: the mount point, ZFSBootMenu, and
/// systemd-boot where ZFSBootMenu could be installed.
pub open spec fn bootloader_plan(config: &Config, tools: InitramfsTools) -> PlanModel {
    let mountpoint = seq![StepModel::create_directory(EFI_MOUNTPOINT@, config.dry_run)];
    let zbm = zbm_plan(EFI_MOUNTPOINT@, tools, config.dry_run);
    match zbm.failure {
        Some(e) => PlanModel { steps: mountpoint + zbm.steps, failure: Some(e) },
        None => PlanModel {
            steps: mountpoint + zbm.steps + systemd_boot_steps(EFI_MOUNTPOINT@, config.dry_run),
            failure: None,
        },
    }
}

/// The steps that finish an installation: the pool boots the default boot
/// environment, a first snapshot is taken, buffers are flushed.
pub open spec fn finalize_steps(config: &Config) -> Seq<StepModel> {
    seq![
        StepModel::run(
            set_bootfs_command(config.pool_name@, BOOT_ENVIRONMENT@),
            FailurePolicy::Zfs,
            config.dry_run,
        ),
        StepModel::run(
            snapshot_command(config.pool_name@, BOOT_ENVIRONMENT@, FIRST_SNAPSHOT@),
            FailurePolicy::Zfs,
            config.dry_run,
        ),
        StepModel::run(sync_command(), FailurePolicy::Tolerate, config.dry_run),
    ]
}

impl EngineModel {
    /// The state before anything was asked.
    pub open spec fn initial() -> EngineModel {
        EngineModel {
            phase: Phase::Validate,
            progress: Progress::Idle,
            cursor: 0,
            partitions: Seq::empty(),
            queue: Seq::empty(),
            next: 0,
            failure: None,
            report: None,
        }
    }

    /// The state with other work at hand.
    pub open spec fn with_work(self, queue: Seq<StepModel>, failure: Option<ErrorModel>) -> EngineModel {
        EngineModel { queue, next: 0, failure, ..self }
    }

    /// An error ends the installation.
    pub open spec fn abort(self, e: ErrorModel) -> (EngineModel, ActionModel) {
        (EngineModel { progress: Progress::Aborted, ..self }, ActionModel::Abort(e))
    }

    /// The phase `phase` begins.
    pub open spec fn announce(self, phase: Phase) -> (EngineModel, ActionModel) {
        (
            EngineModel {
                phase,
                progress: Progress::Announced,
                ..self.with_work(Seq::empty(), None)
            },
            ActionModel::Announce(phase),
        )
    }

    /// The phase at hand is done: the next one begins, or the installation
    /// is complete.
    pub open spec fn phase_done(self, config: &Config) -> (EngineModel, ActionModel) {
        match self.phase.successor(config.mode) {
            Some(phase) => self.announce(phase),
            None => (
                EngineModel {
                    progress: Progress::Completed,
                    ..self.with_work(Seq::empty(), None)
                },
                ActionModel::Finish,
            ),
        }
    }

    /// Turns to the device at the cursor: its attributes are asked for by
    /// the base name of its path; a path without one ends the
    /// installation. Behind the last device the phase is done.
    pub open spec fn resolve(self, config: &Config) -> (EngineModel, ActionModel) {
        if self.cursor < config.devices@.len() {
            let path = config.devices@[self.cursor as int]@;
            match base_name(path) {
                Some(name) => (
                    EngineModel { progress: Progress::AwaitingDevice, ..self },
                    ActionModel::ResolveDevice(name),
                ),
                None => self.abort(ErrorModel::DeviceNotFound(path)),
            }
        } else {
            self.phase_done(config)
        }
    }

    /// Goes on with the work at hand: the next step is handed out; behind
    /// the last step the work's failure ends the installation where it has
    /// one, else the next device is turned to while disks are prepared,
    /// and the phase is done otherwise.
    pub open spec fn issue(self, config: &Config) -> (EngineModel, ActionModel) {
        if self.next < self.queue.len() {
            (
                EngineModel { progress: Progress::AwaitingOutcome, ..self },
                ActionModel::Perform(self.queue[self.next as int]),
            )
        } else if self.failure is Some {
            EngineModel { failure: None, ..self }.abort(self.failure->0)
        } else if self.phase == Phase::PrepareDisks {
            EngineModel {
                cursor: if self.cursor < config.devices@.len() {
                    self.cursor + 1
                } else {
                    self.cursor
                },
                ..self.with_work(Seq::empty(), None)
            }.resolve(config)
        } else {
            self.phase_done(config)
        }
    }

    /// Begins the phase that was announced.
    pub open spec fn start_phase(self, config: &Config) -> (EngineModel, ActionModel) {
        match self.phase {
            Phase::Validate => if config.skip_preflight {
                self.phase_done(config)
            } else {
                (
                    EngineModel { progress: Progress::AwaitingFacts, ..self },
                    ActionModel::GatherFacts,
                )
            },
            Phase::PrepareDisks => EngineModel {
                cursor: 0,
                partitions: Seq::empty(),
                ..self
            }.resolve(config),
            Phase::CreateZfs => self.with_work(
                create_zfs_steps(config, self.partitions),
                None,
            ).issue(config),
            Phase::MountFilesystem => self.with_work(mount_steps(config), None).issue(config),
            Phase::MigrateSystem => self.with_work(Seq::empty(), None).issue(config),
            Phase::InstallBootloader => (
                EngineModel { progress: Progress::AwaitingTools, ..self },
                ActionModel::ProbeTools,
            ),
            Phase::Finalize => self.with_work(finalize_steps(config), None).issue(config),
        }
    }

    /// Takes the facts: validation decides whether the installation goes
    /// on. Any error that it finds ends the installation. What it found
    /// is kept as the report.
    pub open spec fn on_facts(self, config: &Config, facts: &SystemFacts) -> (
        EngineModel,
        ActionModel,
    ) {
        match memory_reading(reading_view(&facts.memory)) {
            Err(e) => self.abort(e),
            Ok(kb) => {
                let found = all_findings(config, facts, kb);
                let checked = EngineModel { report: Some(found), ..self };
                if found.errors.len() == 0 {
                    checked.phase_done(config)
                } else {
                    checked.abort(preflight_failed())
                }
            },
        }
    }

    /// Takes what was read of the device at the cursor: the device is laid
    /// out, or the installation ends where it cannot be read.
    pub open spec fn on_device(self, config: &Config, attributes: &DeviceAttributes) -> (
        EngineModel,
        ActionModel,
    ) {
        if self.cursor < config.devices@.len() && base_name(
            config.devices@[self.cursor as int]@,
        ) is Some {
            let name = base_name(config.devices@[self.cursor as int]@)->0;
            match device_of(name, attributes) {
                Err(e) => self.abort(e),
                Ok(device) => EngineModel {
                    partitions: self.partitions.push(
                        layout_partitions(device.name, device.path, config.swap_size),
                    ),
                    ..self.with_work(device_steps(config, device.name, device.path), None)
                }.issue(config),
            }
        } else {
            self.abort(unexpected())
        }
    }

    /// Takes the tools that were found: the boot chain is installed.
    pub open spec fn on_tools(self, config: &Config, tools: InitramfsTools) -> (
        EngineModel,
        ActionModel,
    ) {
        let plan = bootloader_plan(config, tools);
        self.with_work(plan.steps, plan.failure).issue(config)
    }

    /// Takes the outcome of the step that was handed out: a failure that
    /// the step's policy does not tolerate ends the installation.
    pub open spec fn on_outcome(self, config: &Config, outcome: &Outcome) -> (
        EngineModel,
        ActionModel,
    ) {
        if self.next < self.queue.len() {
            match self.queue[self.next as int].verdict(outcome@) {
                Some(e) => self.abort(e),
                None => EngineModel { next: self.next + 1, ..self }.issue(config),
            }
        } else {
            self.abort(unexpected())
        }
    }

    /// The state and the action that follow on `event`. A finished
    /// installation stays as it is; an event that does not answer what was
    /// asked ends the installation.
    pub open spec fn step(self, config: &Config, event: &Event) -> (EngineModel, ActionModel) {
        match self.progress {
            Progress::Completed => (self, ActionModel::Finish),
            Progress::Aborted => (self, ActionModel::Abort(already_aborted())),
            Progress::Idle => match event {
                Event::Proceed => self.announce(Phase::Validate),
                _ => self.abort(unexpected()),
            },
            Progress::Announced => match event {
                Event::Proceed => self.start_phase(config),
                _ => self.abort(unexpected()),
            },
            Progress::AwaitingFacts => match event {
                Event::Facts(facts) => self.on_facts(config, facts),
                _ => self.abort(unexpected()),
            },
            Progress::AwaitingDevice => match event {
                Event::Device(attributes) => self.on_device(config, attributes),
                _ => self.abort(unexpected()),
            },
            Progress::AwaitingTools => match event {
                Event::Tools(tools) => self.on_tools(config, *tools),
                _ => self.abort(unexpected()),
            },
            Progress::AwaitingOutcome => match event {
                Event::Outcome(outcome) => self.on_outcome(config, outcome),
                _ => self.abort(unexpected()),
            },
        }
    }

    /// The state is one that an installation under `config` can be in:
    /// what the engine waits for fits the phase, a step that was handed
    /// out stands in the queue, and every step is simulated exactly in a
    /// dry run.
    pub open spec fn wf(self, config: &Config) -> bool {
        &&& self.progress == Progress::Idle ==> self.phase == Phase::Validate
        &&& self.progress == Progress::AwaitingOutcome ==> self.next < self.queue.len()
        &&& self.progress == Progress::AwaitingFacts ==> self.phase == Phase::Validate
        &&& self.progress == Progress::AwaitingTools ==> self.phase == Phase::InstallBootloader
        &&& self.progress == Progress::AwaitingDevice ==> {
            &&& self.phase == Phase::PrepareDisks
            &&& self.cursor < config.devices@.len()
            &&& base_name(config.devices@[self.cursor as int]@) is Some
        }
        &&& self.phase == Phase::MigrateSystem ==> config.mode == InstallMode::Existing
        &&& forall|i: int|
            0 <= i < self.queue.len() ==> (#[trigger] self.queue[i]).simulated == config.dry_run
    }
}

/// The models of a list of partition sets.
pub open spec fn partition_set_models(sets: Seq<ZbmPartitions>) -> Seq<ZbmPartitionsModel> {
    sets.map_values(|p: ZbmPartitions| p@)
}

/// Main installer orchestrator
#[derive(Debug)]
pub struct Installer {
    config: Config,
    report: Option<ValidationResult>,
    phase: Phase,
    progress: Progress,
    cursor: usize,
    partitions: Vec<ZbmPartitions>,
    queue: Vec<Step>,
    next: usize,
    failure: Option<InstallerError>,
}

impl View for Installer {
    type V = EngineModel;

    closed spec fn view(&self) -> EngineModel {
        EngineModel {
            phase: self.phase,
            progress: self.progress,
            cursor: self.cursor as nat,
            partitions: partition_set_models(self.partitions@),
            queue: step_models(self.queue@),
            next: self.next as nat,
            failure: match self.failure {
                Some(e) => Some(e@),
                None => None,
            },
            report: match self.report {
                Some(found) => Some(found@),
                None => None,
            },
        }
    }
}

impl Installer {
    /// The configuration of this installation.
    pub closed spec fn configuration(&self) -> &Config {
        &self.config
    }

    /// Create a new installer with the given configuration, which must be
    /// valid; the error for one that is not reports every broken rule.
    /// `source_root_exists` says whether the configured source root was
    /// found.
    pub fn new(config: Config, source_root_exists: bool) -> (r: Result<Self, InstallerError>)
        ensures
            r is Ok <==> config.is_valid(source_root_exists),
            r matches Ok(installer) ==> {
                &&& *installer.configuration() == config
                &&& installer@ == EngineModel::initial()
                &&& installer@.wf(&config)
            },
            r matches Err(e) ==> e@ == ErrorModel::ValidationError(
                joined_messages(config.all_violations(source_root_exists)),
            ),
            config.efi_size < MIN_EFI_SIZE ==> r is Err && holds_text(
                joined_messages(config.all_violations(source_root_exists)),
                "EFI partition must be at least 100MB"@,
            ),
    {
        match config.validate(source_root_exists) {
            Err(e) => Err(e),
            Ok(()) => {
                let installer = Installer {
                    config,
                    report: None,
                    phase: Phase::Validate,
                    progress: Progress::Idle,
                    cursor: 0,
                    partitions: Vec::new(),
                    queue: Vec::new(),
                    next: 0,
                    failure: None,
                };
                assert(installer@.partitions =~= Seq::empty());
                assert(installer@.queue =~= Seq::empty());
                Ok(installer)
            },
        }
    }

    /// The configuration of this installation.
    pub fn config(&self) -> (r: &Config)
        ensures
            r == self.configuration(),
    {
        &self.config
    }

    /// The phase that the installation is in.
    pub fn phase(&self) -> (r: Phase)
        ensures
            r == self@.phase,
    {
        self.phase
    }

    /// What the engine waits for.
    pub fn progress(&self) -> (r: Progress)
        ensures
            r == self@.progress,
    {
        self.progress
    }

    /// What validation found, once the facts were taken.
    pub fn report(&self) -> (r: &Option<ValidationResult>)
        ensures
            match r {
                Some(found) => self@.report == Some(found@),
                None => self@.report is None,
            },
    {
        &self.report
    }

    /// The partitions of the devices that were laid out so far.
    pub fn partitions(&self) -> (r: &Vec<ZbmPartitions>)
        ensures
            partition_set_models(r@) == self@.partitions,
    {
        &self.partitions
    }

    fn set_work(&mut self, queue: Vec<Step>, failure: Option<InstallerError>)
        ensures
            final(self).config == old(self).config,
            final(self)@ == old(self)@.with_work(
                step_models(queue@),
                match failure {
                    Some(e) => Some(e@),
                    None => None,
                },
            ),
    {
        self.queue = queue;
        self.next = 0;
        self.failure = failure;
    }

    fn abort(&mut self, e: InstallerError) -> (r: Action)
        ensures
            final(self).config == old(self).config,
            (final(self)@, r@) == old(self)@.abort(e@),
    {
        self.progress = Progress::Aborted;
        Action::Abort(e)
    }

    fn announce(&mut self, phase: Phase) -> (r: Action)
        ensures
            final(self).config == old(self).config,
            (final(self)@, r@) == old(self)@.announce(phase),
    {
        self.set_work(Vec::new(), None);
        assert(step_models(self.queue@) =~= Seq::empty());
        self.phase = phase;
        self.progress = Progress::Announced;
        Action::Announce(phase)
    }

    fn phase_done(&mut self) -> (r: Action)
        ensures
            final(self).config == old(self).config,
            (final(self)@, r@) == old(self)@.phase_done(&old(self).config),
    {
        match self.phase.next(self.config.mode) {
            Some(phase) => self.announce(phase),
            None => {
                self.set_work(Vec::new(), None);
                assert(step_models(self.queue@) =~= Seq::empty());
                self.progress = Progress::Completed;
                Action::Finish
            },
        }
    }

    fn resolve(&mut self) -> (r: Action)
        ensures
            final(self).config == old(self).config,
            (final(self)@, r@) == old(self)@.resolve(&old(self).config),
    {
        if self.cursor < self.config.devices.len() {
            let path = self.config.devices[self.cursor].as_str();
            match device_name(path) {
                Some(name) => {
                    self.progress = Progress::AwaitingDevice;
                    Action::ResolveDevice(name)
                },
                None => {
                    let e = InstallerError::DeviceNotFound(String::from_str(path));
                    self.abort(e)
                },
            }
        } else {
            self.phase_done()
        }
    }

    fn issue(&mut self) -> (r: Action)
        ensures
            final(self).config == old(self).config,
            (final(self)@, r@) == old(self)@.issue(&old(self).config),
    {
        if self.next < self.queue.len() {
            self.progress = Progress::AwaitingOutcome;
            Action::Perform(self.queue[self.next].duplicate())
        } else if self.failure.is_some() {
            let e = self.failure.take().unwrap();
            self.abort(e)
        } else if self.phase == Phase::PrepareDisks {
            if self.cursor < self.config.devices.len() {
                self.cursor = self.cursor + 1;
            }
            self.set_work(Vec::new(), None);
            assert(step_models(self.queue@) =~= Seq::empty());
            self.resolve()
        } else {
            self.phase_done()
        }
    }

    /// Installs the configured devices' partitions, file systems and swap:
    /// the steps that prepare `device`, and the partitions that come of
    /// them.
    pub fn prepare_disk(&self, device: &BlockDevice) -> (r: (Vec<Step>, ZbmPartitions))
        ensures
            step_models(r.0@) == device_steps(self.configuration(), device.name@, device.path@),
            r.1@ == layout_partitions(
                device.name@,
                device.path@,
                self.configuration().swap_size,
            ),
    {
        let disk_ops = DiskOperations::new(self.config.dry_run);
        let (mut steps, partitions) = disk_ops.create_zbm_partitions(
            device,
            self.config.efi_size,
            self.config.swap_size,
        );
        let ghost flag = self.config.dry_run;
        let ghost layout = layout_commands(
            device.path@,
            self.config.efi_size,
            self.config.swap_size,
        );
        let ghost format = format_efi_command(partitions.efi@);
        let ghost laid_out = steps@;
        assert(step_models(laid_out) == disk_steps(layout, flag));
        let format_step = disk_ops.format_efi(partitions.efi.as_str());
        steps.push(format_step);
        assert(step_models(steps@) =~= step_models(laid_out).push(format_step@));
        assert(disk_steps(layout + seq![format], flag) =~= disk_steps(layout, flag).push(
            StepModel::run(format, FailurePolicy::Disk, flag),
        ));
        if let Some(swap) = &partitions.swap {
            let ghost formatted = steps@;
            let swap_step = disk_ops.create_swap(swap.as_str());
            steps.push(swap_step);
            assert(step_models(steps@) =~= step_models(formatted).push(swap_step@));
            assert(disk_steps(layout + seq![format] + seq![make_swap_command(swap@)], flag)
                =~= disk_steps(layout + seq![format], flag).push(
                StepModel::run(make_swap_command(swap@), FailurePolicy::Disk, flag),
            ));
        } else {
            assert(layout + seq![format] + Seq::empty() =~= layout + seq![format]);
        }
        (steps, partitions)
    }

    /// Create ZFS pool and datasets: the steps, over the pool partitions
    /// of the devices that were laid out.
    pub fn create_zfs(&self) -> (r: Vec<Step>)
        ensures
            step_models(r@) == create_zfs_steps(self.configuration(), self@.partitions),
    {
        let mut zfs_paths: Vec<String> = Vec::new();
        let mut i: usize = 0;
        while i < self.partitions.len()
            invariant
                i <= self.partitions.len(),
                zfs_paths@.len() == i,
                forall|j: int| 0 <= j < i ==> zfs_paths@[j]@ == self.partitions@[j].zfs@,
            decreases self.partitions.len() - i,
        {
            zfs_paths.push(self.partitions[i].zfs.clone());
            i += 1;
        }
        assert(views(zfs_paths@) =~= zfs_devices(self@.partitions));
        let pool = ZfsPool::new(
            self.config.pool_name.clone(),
            self.config.raid_level,
            zfs_paths,
            self.config.ashift,
            self.config.compression,
            self.config.dry_run,
        );
        let mut steps: Vec<Step> = Vec::new();
        steps.push(pool.create());
        let ghost first = steps@;
        let manager = DatasetManager::new(self.config.pool_name.clone(), self.config.dry_run);
        let mut datasets = manager.create_zbm_datasets();
        let ghost rest = datasets@;
        steps.append(&mut datasets);
        assert(step_models(first + rest) =~= step_models(first) + step_models(rest));
        assert(step_models(steps@) =~= create_zfs_steps(&self.config, self@.partitions));
        steps
    }

    /// Mount filesystem: the steps, none in a dry run.
    pub fn mount_filesystem(&self) -> (r: Vec<Step>)
        ensures
            step_models(r@) == mount_steps(self.configuration()),
    {
        let mut steps: Vec<Step> = Vec::new();
        if !self.config.dry_run {
            let manager = DatasetManager::new(self.config.pool_name.clone(), false);
            steps.push(manager.mount(BOOT_ENVIRONMENT));
        }
        assert(step_models(steps@) =~= mount_steps(&self.config));
        steps
    }

    /// Install bootloader: the plan for the boot chain, given the tools
    /// that were found for building the initramfs.
    pub fn install_bootloader(&self, tools: InitramfsTools) -> (r: Plan)
        ensures
            r@ == bootloader_plan(self.configuration(), tools),
    {
        let mut steps: Vec<Step> = Vec::new();
        steps.push(Executor::new(self.config.dry_run).create_directory(EFI_MOUNTPOINT));
        let ghost first = steps@;
        let zbm = ZbmInstaller::new(
            self.config.pool_name.clone(),
            String::from_str(EFI_MOUNTPOINT),
            self.config.dry_run,
        );
        let plan = zbm.install(tools);
        let Plan { steps: mut zbm_steps, failure } = plan;
        let ghost second = zbm_steps@;
        steps.append(&mut zbm_steps);
        assert(step_models(first + second) =~= step_models(first) + step_models(second));
        assert(step_models(first) =~= seq![
            StepModel::create_directory(EFI_MOUNTPOINT@, self.config.dry_run),
        ]);
        match failure {
            Some(e) => Plan { steps, failure: Some(e) },
            None => {
                let systemd_boot = SystemdBoot::new(
                    String::from_str(EFI_MOUNTPOINT),
                    self.config.dry_run,
                );
                let mut boot_steps = systemd_boot.install();
                let ghost so_far = steps@;
                let ghost third = boot_steps@;
                steps.append(&mut boot_steps);
                assert(step_models(so_far + third) =~= step_models(so_far) + step_models(third));
                Plan { steps, failure: None }
            },
        }
    }

    /// Finalize installation: the steps.
    pub fn finalize(&self) -> (r: Vec<Step>)
        ensures
            step_models(r@) == finalize_steps(self.configuration()),
    {
        let pool = ZfsPool::new(
            self.config.pool_name.clone(),
            self.config.raid_level,
            Vec::new(),
            None,
            self.config.compression,
            self.config.dry_run,
        );
        let manager = DatasetManager::new(self.config.pool_name.clone(), self.config.dry_run);
        let mut steps: Vec<Step> = Vec::new();
        steps.push(pool.set_bootfs(BOOT_ENVIRONMENT));
        steps.push(manager.snapshot(BOOT_ENVIRONMENT, FIRST_SNAPSHOT));
        steps.push(sync(self.config.dry_run));
        assert(step_models(steps@) =~= finalize_steps(&self.config));
        steps
    }

    fn start_phase(&mut self) -> (r: Action)
        ensures
            final(self).config == old(self).config,
            (final(self)@, r@) == old(self)@.start_phase(&old(self).config),
    {
        match self.phase {
            Phase::Validate => {
                if self.config.skip_preflight {
                    self.phase_done()
                } else {
                    self.progress = Progress::AwaitingFacts;
                    Action::GatherFacts
                }
            },
            Phase::PrepareDisks => {
                self.cursor = 0;
                self.partitions = Vec::new();
                assert(partition_set_models(self.partitions@) =~= Seq::empty());
                self.resolve()
            },
            Phase::CreateZfs => {
                let steps = self.create_zfs();
                self.set_work(steps, None);
                self.issue()
            },
            Phase::MountFilesystem => {
                let steps = self.mount_filesystem();
                self.set_work(steps, None);
                self.issue()
            },
            Phase::MigrateSystem => {
                self.set_work(Vec::new(), None);
                assert(step_models(self.queue@) =~= Seq::empty());
                self.issue()
            },
            Phase::InstallBootloader => {
                self.progress = Progress::AwaitingTools;
                Action::ProbeTools
            },
            Phase::Finalize => {
                let steps = self.finalize();
                self.set_work(steps, None);
                self.issue()
            },
        }
    }

    /// Validate configuration and system, on the facts that were gathered.
    fn validate(&mut self, facts: &SystemFacts) -> (r: Action)
        ensures
            final(self).config == old(self).config,
            (final(self)@, r@) == old(self)@.on_facts(&old(self).config, facts),
    {
        match Validator::check(&self.config, facts) {
            Err(e) => self.abort(e),
            Ok(result) => {
                let passed = result.is_ok();
                self.report = Some(result);
                if passed {
                    self.phase_done()
                } else {
                    let e = InstallerError::validation("Pre-flight checks failed");
                    self.abort(e)
                }
            },
        }
    }

    /// Prepare disks (partition, format): takes what was read of the
    /// device at the cursor.
    fn prepare_disks(&mut self, attributes: &DeviceAttributes) -> (r: Action)
        ensures
            final(self).config == old(self).config,
            (final(self)@, r@) == old(self)@.on_device(&old(self).config, attributes),
    {
        if self.cursor >= self.config.devices.len() {
            return self.unexpected();
        }
        let name = match device_name(self.config.devices[self.cursor].as_str()) {
            Some(name) => name,
            None => {
                return self.unexpected();
            },
        };
        match BlockDevice::from_name(name.as_str(), attributes) {
            Err(e) => self.abort(e),
            Ok(device) => {
                let (steps, partitions) = self.prepare_disk(&device);
                let ghost before = self.partitions@;
                self.partitions.push(partitions);
                assert(partition_set_models(self.partitions@) =~= partition_set_models(
                    before,
                ).push(partitions@));
                self.set_work(steps, None);
                self.issue()
            },
        }
    }

    fn settle(&mut self, outcome: &Outcome) -> (r: Action)
        ensures
            final(self).config == old(self).config,
            (final(self)@, r@) == old(self)@.on_outcome(&old(self).config, outcome),
    {
        if self.next >= self.queue.len() {
            return self.unexpected();
        }
        match self.queue[self.next].settle(outcome) {
            Err(e) => self.abort(e),
            Ok(()) => {
                self.next = self.next + 1;
                self.issue()
            },
        }
    }

    /// Run the installation one decision further: takes the answer to the
    /// action that was given last, and gives the next action.
    pub fn install(&mut self, event: Event) -> (r: Action)
        ensures
            final(self).configuration() == old(self).configuration(),
            (final(self)@, r@) == old(self)@.step(old(self).configuration(), &event),
            old(self)@.wf(old(self).configuration()) ==> final(self)@.wf(
                final(self).configuration(),
            ),
    {
        proof {
            if self@.wf(&self.config) {
                crate::guarantees::lemma_step_keeps_wf(&self.config, self@, event);
            }
        }
        match self.progress {
            Progress::Completed => Action::Finish,
            Progress::Aborted => Action::Abort(
                InstallerError::Other(String::from_str("Installation was aborted")),
            ),
            Progress::Idle => match event {
                Event::Proceed => self.announce(Phase::Validate),
                _ => self.unexpected(),
            },
            Progress::Announced => match event {
                Event::Proceed => self.start_phase(),
                _ => self.unexpected(),
            },
            Progress::AwaitingFacts => match event {
                Event::Facts(facts) => self.validate(&facts),
                _ => self.unexpected(),
            },
            Progress::AwaitingDevice => match event {
                Event::Device(attributes) => self.prepare_disks(&attributes),
                _ => self.unexpected(),
            },
            Progress::AwaitingTools => match event {
                Event::Tools(tools) => {
                    let Plan { steps, failure } = self.install_bootloader(tools);
                    self.set_work(steps, failure);
                    self.issue()
                },
                _ => self.unexpected(),
            },
            Progress::AwaitingOutcome => match event {
                Event::Outcome(outcome) => self.settle(&outcome),
                _ => self.unexpected(),
            },
        }
    }

    fn unexpected(&mut self) -> (r: Action)
        ensures
            final(self).config == old(self).config,
            (final(self)@, r@) == old(self)@.abort(unexpected()),
    {
        let e = InstallerError::Other(String::from_str("Unexpected event"));
        self.abort(e)
    }
}

} // verus!
