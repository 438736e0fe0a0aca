//! The course of an installation in which nothing fails: which actions
//! the engine gives, one after the other, when the checks pass, every
//! device can be read and every step succeeds. Where no tool for the
//! initramfs is found, the course ends at the boot chain.

use crate::bootloader::zbm::InitramfsTools;
use crate::command::{CommandModel, FailurePolicy, OperationModel, Outcome, StepModel};
use crate::config::{Compression, Config, InstallMode, RaidLevel};
use crate::disk::block_device::{device_of, reading_view, BlockDeviceModel, DeviceAttributes};
use crate::disk::discovery::base_name;
use crate::disk::operations::{
    disk_steps, efi_partition, format_efi_command, gpt_commands, layout_partitions,
    make_swap_command, partition_commands, partition_path, swap_partition, wipe_commands,
    zfs_partition, zfs_partition_number, ZbmPartitionsModel,
};
use crate::zfs::dataset::{layout_steps, DATASET_COUNT};
use crate::zfs::pool::{create_pool_command, vdev_args};
use crate::error::ErrorModel;
use crate::guarantees::{lemma_dry_run_performs_nothing, run};
use crate::installer::{
    bootloader_plan, create_zfs_steps, device_steps, finalize_steps, mount_steps, zfs_devices,
    ActionModel, EngineModel, Event, Phase, Progress,
};
use crate::system::memory::memory_reading;
use crate::validation::{all_findings, SystemFacts};
use vstd::prelude::*;

verus! {

/// What a system answers to the questions of the engine.
pub ghost struct Answers {
    /// The facts for the checks.
    pub facts: SystemFacts,
    /// What is read of each configured device, in the order of the
    /// configuration.
    pub devices: Seq<DeviceAttributes>,
    /// The tools that are found for building the initramfs.
    pub tools: InitramfsTools,
}

/// The state that the engine is in after `events`.
pub open spec fn end_state(config: &Config, state: EngineModel, events: Seq<Event>) -> EngineModel
    decreases events.len(),
{
    if events.len() == 0 {
        state
    } else {
        end_state(config, state.step(config, &events[0]).0, events.drop_first())
    }
}

/// As many reports of a step that succeeded.
pub open spec fn dones(count: nat) -> Seq<Event> {
    Seq::new(count, |i: int| Event::Outcome(Outcome::Done))
}

/// The actions that hand out `steps`, one after the other.
pub open spec fn performs(steps: Seq<StepModel>) -> Seq<ActionModel> {
    steps.map_values(|s: StepModel| ActionModel::Perform(s))
}

/// What follows the last step of the work at hand.
pub open spec fn batch_end(config: &Config, state: EngineModel) -> (EngineModel, ActionModel) {
    EngineModel { next: state.queue.len(), ..state }.issue(config)
}

/// The engine has announced `phase`, with `partitions` laid out so far.
pub open spec fn announced(
    state: EngineModel,
    phase: Phase,
    partitions: Seq<ZbmPartitionsModel>,
) -> bool {
    state.phase == phase && state.progress == Progress::Announced && state.partitions
        == partitions
}

/// The pre-flight checks pass on the facts, or are skipped.
pub open spec fn checks_pass(config: &Config, answers: Answers) -> bool {
    config.skip_preflight || {
        &&& memory_reading(reading_view(&answers.facts.memory)) is Ok
        &&& all_findings(
            config,
            &answers.facts,
            memory_reading(reading_view(&answers.facts.memory))->Ok_0,
        ).errors.len() == 0
    }
}

/// The device that the `i`-th configured path resolves to.
pub open spec fn device_at(config: &Config, answers: Answers, i: int) -> Result<
    BlockDeviceModel,
    ErrorModel,
> {
    device_of(base_name(config.devices@[i]@)->0, &answers.devices[i])
}

/// Every configured path has a base name, and the device that it names
/// can be read.
pub open spec fn devices_resolve(config: &Config, answers: Answers) -> bool {
    &&& answers.devices.len() == config.devices@.len()
    &&& forall|i: int|
        0 <= i < config.devices@.len() ==> base_name((#[trigger] config.devices@[i])@) is Some
            && device_at(config, answers, i) is Ok
}

/// The partitions of the first `count` devices, in their order.
pub open spec fn laid_out(config: &Config, answers: Answers, count: nat) -> Seq<
    ZbmPartitionsModel,
>
    decreases count,
{
    if count == 0 {
        Seq::empty()
    } else {
        let device = device_at(config, answers, count - 1)->Ok_0;
        laid_out(config, answers, (count - 1) as nat).push(
            layout_partitions(device.name, device.path, config.swap_size),
        )
    }
}

/// The steps that prepare the `i`-th device.
pub open spec fn steps_of_device(config: &Config, answers: Answers, i: int) -> Seq<StepModel> {
    let device = device_at(config, answers, i)->Ok_0;
    device_steps(config, device.name, device.path)
}

/// What the engine turns to behind the `i`-th device: the next device,
/// or the creation of the pool behind the last.
pub open spec fn after_device(config: &Config, i: int) -> ActionModel {
    if i + 1 < config.devices@.len() {
        ActionModel::ResolveDevice(base_name(config.devices@[i + 1]@)->0)
    } else {
        ActionModel::Announce(Phase::CreateZfs)
    }
}

/// What the engine is told from the `i`-th device on while disks are
/// prepared: what was read of each device, and the success of each of its
/// steps.
pub open spec fn disk_events(config: &Config, answers: Answers, i: nat) -> Seq<Event>
    decreases config.devices@.len() - i,
{
    if i >= config.devices@.len() {
        Seq::empty()
    } else {
        seq![Event::Device(answers.devices[i as int])] + (dones(
            steps_of_device(config, answers, i as int).len(),
        ) + disk_events(config, answers, i + 1))
    }
}

/// What the engine asks for from the `i`-th device on while disks are
/// prepared: the steps of each device, and what it turns to behind each.
pub open spec fn disk_actions(config: &Config, answers: Answers, i: nat) -> Seq<ActionModel>
    decreases config.devices@.len() - i,
{
    if i >= config.devices@.len() {
        Seq::empty()
    } else {
        performs(steps_of_device(config, answers, i as int)) + (seq![after_device(config, i as int)]
            + disk_actions(config, answers, i + 1))
    }
}

/// What the engine is told until it turns to the first device: the
/// go-ahead for the start and for the checks, the facts unless the checks
/// are skipped, and the go-ahead for the disks.
pub open spec fn start_events(config: &Config, answers: Answers) -> Seq<Event> {
    if config.skip_preflight {
        seq![Event::Proceed, Event::Proceed, Event::Proceed]
    } else {
        seq![Event::Proceed, Event::Proceed, Event::Facts(answers.facts), Event::Proceed]
    }
}

/// What the engine asks for until it turns to the first device.
pub open spec fn start_actions(config: &Config) -> Seq<ActionModel> {
    let first = ActionModel::ResolveDevice(base_name(config.devices@[0]@)->0);
    if config.skip_preflight {
        seq![
            ActionModel::Announce(Phase::Validate),
            ActionModel::Announce(Phase::PrepareDisks),
            first,
        ]
    } else {
        seq![
            ActionModel::Announce(Phase::Validate),
            ActionModel::GatherFacts,
            ActionModel::Announce(Phase::PrepareDisks),
            first,
        ]
    }
}

/// A phase's share of what the engine is told: the go-ahead, and the
/// success of each of its steps.
pub open spec fn phase_events(steps: Seq<StepModel>) -> Seq<Event> {
    seq![Event::Proceed] + dones(steps.len())
}

/// A phase's share of what the engine asks for: its steps, and what
/// follows the phase.
pub open spec fn phase_actions(steps: Seq<StepModel>, then: ActionModel) -> Seq<ActionModel> {
    performs(steps) + seq![then]
}

/// What follows a phase: the announcement of the next, or the end.
pub open spec fn after_phase(config: &Config, phase: Phase) -> ActionModel {
    match phase.successor(config.mode) {
        Some(next) => ActionModel::Announce(next),
        None => ActionModel::Finish,
    }
}

/// The migration's share of what the engine is told: the go-ahead, for
/// existing systems only.
pub open spec fn migration_events(config: &Config) -> Seq<Event> {
    if config.mode == InstallMode::Existing {
        phase_events(Seq::empty())
    } else {
        Seq::empty()
    }
}

/// The migration's share of what the engine asks for: it has no steps.
pub open spec fn migration_actions(config: &Config) -> Seq<ActionModel> {
    if config.mode == InstallMode::Existing {
        phase_actions(Seq::empty(), ActionModel::Announce(Phase::InstallBootloader))
    } else {
        Seq::empty()
    }
}

/// The boot chain's share of what the engine is told: the go-ahead, the
/// tools, and the success of each step.
pub open spec fn boot_events(config: &Config, answers: Answers) -> Seq<Event> {
    seq![Event::Proceed, Event::Tools(answers.tools)] + dones(
        bootloader_plan(config, answers.tools).steps.len(),
    )
}

/// What follows the steps of the boot chain: the last phase, or the end
/// of the installation where no tool for the initramfs was found.
pub open spec fn after_boot(config: &Config, answers: Answers) -> ActionModel {
    match bootloader_plan(config, answers.tools).failure {
        None => ActionModel::Announce(Phase::Finalize),
        Some(e) => ActionModel::Abort(e),
    }
}

/// The boot chain's share of what the engine asks for.
pub open spec fn boot_actions(config: &Config, answers: Answers) -> Seq<ActionModel> {
    seq![ActionModel::ProbeTools] + phase_actions(
        bootloader_plan(config, answers.tools).steps,
        after_boot(config, answers),
    )
}

/// The last phase's share of what the engine is told; nothing where the
/// installation ended at the boot chain.
pub open spec fn closing_events(config: &Config, answers: Answers) -> Seq<Event> {
    if bootloader_plan(config, answers.tools).failure is None {
        phase_events(finalize_steps(config))
    } else {
        Seq::empty()
    }
}

/// The last phase's share of what the engine asks for; nothing where the
/// installation ended at the boot chain.
pub open spec fn closing_actions(config: &Config, answers: Answers) -> Seq<ActionModel> {
    if bootloader_plan(config, answers.tools).failure is None {
        phase_actions(finalize_steps(config), ActionModel::Finish)
    } else {
        Seq::empty()
    }
}

/// Everything that the engine is told in an installation in which nothing
/// fails.
pub open spec fn smooth_events(config: &Config, answers: Answers) -> Seq<Event> {
    let all = laid_out(config, answers, config.devices@.len());
    start_events(config, answers) + (disk_events(config, answers, 0) + (phase_events(
        create_zfs_steps(config, all),
    ) + (phase_events(mount_steps(config)) + (migration_events(config) + (boot_events(
        config,
        answers,
    ) + closing_events(config, answers))))))
}

/// Everything that the engine asks for in an installation in which
/// nothing fails: the phases in their order, each with its steps. The
/// pool is created when every device is laid out and before the first
/// dataset, over the pool partitions of all devices.
pub open spec fn smooth_actions(config: &Config, answers: Answers) -> Seq<ActionModel> {
    let all = laid_out(config, answers, config.devices@.len());
    start_actions(config) + (disk_actions(config, answers, 0) + (phase_actions(
        create_zfs_steps(config, all),
        ActionModel::Announce(Phase::MountFilesystem),
    ) + (phase_actions(mount_steps(config), after_phase(config, Phase::MountFilesystem)) + (
    migration_actions(config) + (boot_actions(config, answers) + closing_actions(
        config,
        answers,
    ))))))
}

/// What the engine gives for two lists of events, one after the other,
/// is what it gives for the first and then, from where that left it, for
/// the second.
pub proof fn lemma_run_append(
    config: &Config,
    state: EngineModel,
    first: Seq<Event>,
    second: Seq<Event>,
)
    ensures
        run(config, state, first + second) == run(config, state, first) + run(
            config,
            end_state(config, state, first),
            second,
        ),
        end_state(config, state, first + second) == end_state(
            config,
            end_state(config, state, first),
            second,
        ),
    decreases first.len(),
{
    if first.len() == 0 {
        assert(first + second =~= second);
        assert(run(config, state, first) + run(config, state, second) =~= run(
            config,
            state,
            second,
        ));
    } else {
        let whole = first + second;
        let next = state.step(config, &first[0]).0;
        assert(whole[0] == first[0]);
        assert(whole.drop_first() =~= first.drop_first() + second);
        lemma_run_append(config, next, first.drop_first(), second);
        assert(run(config, state, whole) =~= run(config, state, first) + run(
            config,
            end_state(config, state, first),
            second,
        ));
    }
}

/// Once a step is handed out and every step of the work succeeds, the
/// engine hands out the remaining steps in turn and then goes on to what
/// follows the work.
pub proof fn lemma_drain(config: &Config, state: EngineModel)
    requires
        state.progress == Progress::AwaitingOutcome,
        state.next < state.queue.len(),
    ensures
        run(config, state, dones((state.queue.len() - state.next) as nat)) == performs(
            state.queue.skip(state.next as int + 1),
        ) + seq![batch_end(config, state).1],
        end_state(config, state, dones((state.queue.len() - state.next) as nat)) == batch_end(
            config,
            state,
        ).0,
    decreases state.queue.len() - state.next,
{
    let pending = (state.queue.len() - state.next) as nat;
    let events = dones(pending);
    assert(events[0] == Event::Outcome(Outcome::Done));
    assert(events.drop_first() =~= dones((pending - 1) as nat));
    let after = state.step(config, &events[0]);
    assert(state.queue[state.next as int].verdict(Outcome::Done@) is None);
    assert(after == EngineModel { next: state.next + 1, ..state }.issue(config));
    assert(end_state(config, state, events) == end_state(config, after.0, events.drop_first()));
    if state.next + 1 < state.queue.len() {
        let then = after.0;
        assert(then == EngineModel { next: state.next + 1, ..state });
        assert(batch_end(config, then) == batch_end(config, state));
        lemma_drain(config, then);
        assert(state.queue.skip(state.next as int + 1) =~= seq![state.queue[state.next as int + 1]]
            + state.queue.skip(state.next as int + 2));
        assert(performs(state.queue.skip(state.next as int + 1)) =~= seq![after.1] + performs(
            state.queue.skip(state.next as int + 2),
        ));
        assert(run(config, state, events) =~= performs(state.queue.skip(state.next as int + 1))
            + seq![batch_end(config, state).1]);
    } else {
        assert(after == batch_end(config, state));
        assert(events.drop_first().len() == 0);
        assert(run(config, after.0, events.drop_first()) =~= Seq::<ActionModel>::empty());
        assert(performs(state.queue.skip(state.next as int + 1)) =~= Seq::<ActionModel>::empty());
        assert(run(config, state, events) =~= performs(state.queue.skip(state.next as int + 1))
            + seq![batch_end(config, state).1]);
    }
}

/// When the engine takes up work of which every step succeeds, it hands
/// out the steps in turn and then goes on to what follows the work.
pub proof fn lemma_work(
    config: &Config,
    state: EngineModel,
    steps: Seq<StepModel>,
    failure: Option<ErrorModel>,
)
    ensures
        seq![state.with_work(steps, failure).issue(config).1] + run(
            config,
            state.with_work(steps, failure).issue(config).0,
            dones(steps.len()),
        ) == performs(steps) + seq![batch_end(config, state.with_work(steps, failure)).1],
        end_state(config, state.with_work(steps, failure).issue(config).0, dones(steps.len()))
            == batch_end(config, state.with_work(steps, failure)).0,
{
    let taken = state.with_work(steps, failure);
    let first = taken.issue(config);
    if steps.len() == 0 {
        assert(taken == EngineModel { next: taken.queue.len(), ..taken });
        assert(dones(0) =~= Seq::<Event>::empty());
        assert(performs(steps) =~= Seq::<ActionModel>::empty());
        assert(seq![first.1] + run(config, first.0, dones(0)) =~= performs(steps) + seq![
            batch_end(config, taken).1,
        ]);
    } else {
        assert(first.0 == EngineModel { progress: Progress::AwaitingOutcome, ..taken });
        assert(batch_end(config, first.0) == batch_end(config, taken));
        lemma_drain(config, first.0);
        assert(steps =~= seq![steps[0]] + steps.skip(1));
        assert(performs(steps) =~= seq![first.1] + performs(steps.skip(1)));
        assert(seq![first.1] + run(config, first.0, dones(steps.len())) =~= performs(steps)
            + seq![batch_end(config, taken).1]);
    }
}

/// The steps that a phase of plain steps takes up over the partitions
/// that are laid out.
pub open spec fn steps_of_phase(
    config: &Config,
    phase: Phase,
    partitions: Seq<ZbmPartitionsModel>,
) -> Seq<StepModel> {
    match phase {
        Phase::CreateZfs => create_zfs_steps(config, partitions),
        Phase::MountFilesystem => mount_steps(config),
        Phase::Finalize => finalize_steps(config),
        _ => Seq::empty(),
    }
}

/// A phase of plain steps that all succeed: on the go-ahead the engine
/// hands out the phase's steps in turn, then announces the next phase, or
/// finishes behind the last.
pub proof fn lemma_phase(config: &Config, state: EngineModel)
    requires
        state.progress == Progress::Announced,
        state.phase == Phase::CreateZfs || state.phase == Phase::MountFilesystem || state.phase
            == Phase::MigrateSystem || state.phase == Phase::Finalize,
    ensures
        run(
            config,
            state,
            phase_events(steps_of_phase(config, state.phase, state.partitions)),
        ) == phase_actions(
            steps_of_phase(config, state.phase, state.partitions),
            after_phase(config, state.phase),
        ),
        match state.phase.successor(config.mode) {
            Some(next) => announced(
                end_state(
                    config,
                    state,
                    phase_events(steps_of_phase(config, state.phase, state.partitions)),
                ),
                next,
                state.partitions,
            ),
            None => end_state(
                config,
                state,
                phase_events(steps_of_phase(config, state.phase, state.partitions)),
            ).progress == Progress::Completed,
        },
{
    let steps = steps_of_phase(config, state.phase, state.partitions);
    let events = phase_events(steps);
    let first = state.step(config, &events[0]);
    assert(events[0] == Event::Proceed);
    assert(events.drop_first() =~= dones(steps.len()));
    assert(first == state.with_work(steps, None).issue(config));
    lemma_work(config, state, steps, None);
    assert(run(config, state, events) == seq![first.1] + run(config, first.0, dones(steps.len())));
    assert(end_state(config, state, events) == end_state(config, first.0, dones(steps.len())));
}

/// The boot chain, with steps that all succeed: the engine asks for the
/// tools and hands out the steps in turn. Then it announces the last
/// phase, or ends the installation where no tool for the initramfs was
/// found.
pub proof fn lemma_boot(config: &Config, answers: Answers, state: EngineModel)
    requires
        state.progress == Progress::Announced,
        state.phase == Phase::InstallBootloader,
    ensures
        run(config, state, boot_events(config, answers)) == boot_actions(config, answers),
        bootloader_plan(config, answers.tools).failure is None ==> announced(
            end_state(config, state, boot_events(config, answers)),
            Phase::Finalize,
            state.partitions,
        ),
        bootloader_plan(config, answers.tools).failure is Some ==> end_state(
            config,
            state,
            boot_events(config, answers),
        ).progress == Progress::Aborted,
{
    let plan = bootloader_plan(config, answers.tools);
    let events = boot_events(config, answers);
    assert(events[0] == Event::Proceed);
    let asked = state.step(config, &events[0]);
    assert(asked.1 == ActionModel::ProbeTools);
    let rest = events.drop_first();
    assert(rest =~= seq![Event::Tools(answers.tools)] + dones(plan.steps.len()));
    assert(rest[0] == Event::Tools(answers.tools));
    assert(rest.drop_first() =~= dones(plan.steps.len()));
    let first = asked.0.step(config, &rest[0]);
    assert(first == asked.0.with_work(plan.steps, plan.failure).issue(config));
    lemma_work(config, asked.0, plan.steps, plan.failure);
    assert(run(config, asked.0, rest) == seq![first.1] + run(
        config,
        first.0,
        dones(plan.steps.len()),
    ));
    assert(run(config, state, events) =~= boot_actions(config, answers));
    assert(end_state(config, state, events) == end_state(config, asked.0, rest));
    assert(end_state(config, asked.0, rest) == end_state(config, first.0, rest.drop_first()));
}

/// The disks, from the `i`-th on, where every device can be read and
/// every step succeeds: the engine lays out each device in turn, then
/// announces the creation of the pool over all that was laid out.
#[verifier::rlimit(60)]
pub proof fn lemma_disks(config: &Config, answers: Answers, state: EngineModel, i: nat)
    requires
        devices_resolve(config, answers),
        i < config.devices@.len(),
        state.phase == Phase::PrepareDisks,
        state.progress == Progress::AwaitingDevice,
        state.cursor == i,
        state.partitions == laid_out(config, answers, i),
    ensures
        run(config, state, disk_events(config, answers, i)) == disk_actions(config, answers, i),
        announced(
            end_state(config, state, disk_events(config, answers, i)),
            Phase::CreateZfs,
            laid_out(config, answers, config.devices@.len()),
        ),
    decreases config.devices@.len() - i,
{
    let count = config.devices@.len();
    let steps = steps_of_device(config, answers, i as int);
    let device = device_at(config, answers, i as int)->Ok_0;
    let later = disk_events(config, answers, i + 1);
    let events = disk_events(config, answers, i);
    assert(base_name(config.devices@[i as int]@) is Some);
    assert(events[0] == Event::Device(answers.devices[i as int]));
    assert(events.drop_first() =~= dones(steps.len()) + later);
    let grown = EngineModel {
        partitions: laid_out(config, answers, i + 1),
        ..state
    };
    let first = state.step(config, &events[0]);
    assert(first == grown.with_work(steps, None).issue(config));
    lemma_work(config, grown, steps, None);
    lemma_run_append(config, first.0, dones(steps.len()), later);
    let ended = batch_end(config, grown.with_work(steps, None));
    assert(ended.1 == after_device(config, i as int));
    if i + 1 < count {
        assert(base_name(config.devices@[i as int + 1]@) is Some);
        lemma_disks(config, answers, ended.0, i + 1);
    } else {
        assert(later =~= Seq::<Event>::empty());
        assert(disk_actions(config, answers, i + 1) =~= Seq::<ActionModel>::empty());
    }
    assert(run(config, state, events) == seq![first.1] + run(
        config,
        first.0,
        dones(steps.len()) + later,
    ));
    let head = seq![first.1];
    let body = run(config, first.0, dones(steps.len()));
    let tail = run(config, ended.0, later);
    assert(run(config, first.0, dones(steps.len()) + later) == body + tail);
    assert(head + body == performs(steps) + seq![ended.1]);
    assert(run(config, state, events) =~= (head + body) + tail);
    assert(tail == disk_actions(config, answers, i + 1));
    assert((performs(steps) + seq![ended.1]) + tail =~= disk_actions(config, answers, i));
    assert(end_state(config, state, events) == end_state(
        config,
        first.0,
        dones(steps.len()) + later,
    ));
}

/// The start, where the checks pass: the engine announces the checks,
/// asks for the facts unless the checks are skipped, announces the disks
/// and turns to the first device.
#[verifier::rlimit(60)]
pub proof fn lemma_start(config: &Config, answers: Answers)
    requires
        config.devices@.len() > 0,
        base_name(config.devices@[0]@) is Some,
        checks_pass(config, answers),
    ensures
        run(config, EngineModel::initial(), start_events(config, answers)) == start_actions(
            config,
        ),
        ({
            let state = end_state(config, EngineModel::initial(), start_events(config, answers));
            &&& state.phase == Phase::PrepareDisks
            &&& state.progress == Progress::AwaitingDevice
            &&& state.cursor == 0
            &&& state.partitions == Seq::<ZbmPartitionsModel>::empty()
        }),
{
    let events = start_events(config, answers);
    let s0 = EngineModel::initial();
    let r1 = s0.step(config, &events[0]);
    let e1 = events.drop_first();
    let r2 = r1.0.step(config, &e1[0]);
    let e2 = e1.drop_first();
    let r3 = r2.0.step(config, &e2[0]);
    let e3 = e2.drop_first();
    assert(run(config, s0, events) == seq![r1.1] + run(config, r1.0, e1));
    assert(run(config, r1.0, e1) == seq![r2.1] + run(config, r2.0, e2));
    assert(run(config, r2.0, e2) == seq![r3.1] + run(config, r3.0, e3));
    assert(end_state(config, s0, events) == end_state(config, r1.0, e1));
    assert(end_state(config, r1.0, e1) == end_state(config, r2.0, e2));
    assert(end_state(config, r2.0, e2) == end_state(config, r3.0, e3));
    if config.skip_preflight {
        assert(e3.len() == 0);
        assert(run(config, s0, events) =~= start_actions(config));
    } else {
        let r4 = r3.0.step(config, &e3[0]);
        let e4 = e3.drop_first();
        assert(e4.len() == 0);
        assert(run(config, r3.0, e3) == seq![r4.1] + run(config, r4.0, e4));
        assert(end_state(config, r3.0, e3) == end_state(config, r4.0, e4));
        assert(run(config, s0, events) =~= start_actions(config));
    }
}

/// An installation in which nothing fails takes its course: where the
/// checks pass, every device can be read and every step succeeds, the
/// engine goes through the phases in their order and hands out the steps
/// of each. It finishes where a tool for the initramfs is found, and
/// ends in an error behind the steps of the boot chain where none is.
#[verifier::rlimit(60)]
pub proof fn lemma_smooth_installation(config: &Config, answers: Answers)
    requires
        config.devices@.len() > 0,
        checks_pass(config, answers),
        devices_resolve(config, answers),
    ensures
        run(config, EngineModel::initial(), smooth_events(config, answers)) == smooth_actions(
            config,
            answers,
        ),
        end_state(config, EngineModel::initial(), smooth_events(config, answers)).progress
            == if answers.tools.dracut || answers.tools.mkinitcpio {
            Progress::Completed
        } else {
            Progress::Aborted
        },
{
    let count = config.devices@.len();
    let all = laid_out(config, answers, count);
    let e_final = closing_events(config, answers);
    let e_boot = boot_events(config, answers) + e_final;
    let e_migrate = migration_events(config) + e_boot;
    let e_mount = phase_events(mount_steps(config)) + e_migrate;
    let e_zfs = phase_events(create_zfs_steps(config, all)) + e_mount;
    let e_disks = disk_events(config, answers, 0) + e_zfs;
    let s0 = EngineModel::initial();

    assert(base_name(config.devices@[0]@) is Some);
    lemma_start(config, answers);
    lemma_run_append(config, s0, start_events(config, answers), e_disks);
    let s1 = end_state(config, s0, start_events(config, answers));

    lemma_disks(config, answers, s1, 0);
    lemma_run_append(config, s1, disk_events(config, answers, 0), e_zfs);
    let s2 = end_state(config, s1, disk_events(config, answers, 0));

    lemma_phase(config, s2);
    lemma_run_append(config, s2, phase_events(create_zfs_steps(config, all)), e_mount);
    let s3 = end_state(config, s2, phase_events(create_zfs_steps(config, all)));

    lemma_phase(config, s3);
    lemma_run_append(config, s3, phase_events(mount_steps(config)), e_migrate);
    let s4 = end_state(config, s3, phase_events(mount_steps(config)));

    if config.mode == InstallMode::Existing {
        lemma_phase(config, s4);
    } else {
        assert(run(config, s4, migration_events(config)) =~= migration_actions(config));
    }
    lemma_run_append(config, s4, migration_events(config), e_boot);
    let s5 = end_state(config, s4, migration_events(config));

    lemma_boot(config, answers, s5);
    lemma_run_append(config, s5, boot_events(config, answers), e_final);
    let s6 = end_state(config, s5, boot_events(config, answers));

    if bootloader_plan(config, answers.tools).failure is None {
        lemma_phase(config, s6);
    } else {
        assert(run(config, s6, e_final) =~= closing_actions(config, answers));
    }
}

/// The step creates a pool: it runs `zpool create`.
pub open spec fn creates_pool(step: StepModel) -> bool {
    step.operation matches OperationModel::Run { command, .. } && command.program == "zpool"@
        && command.args.len() > 0 && command.args[0] == "create"@
}

/// How many of `actions` hand out a step that creates a pool.
pub open spec fn pool_creations(actions: Seq<ActionModel>) -> nat
    decreases actions.len(),
{
    if actions.len() == 0 {
        0
    } else {
        pool_creations(actions.drop_last()) + if actions.last() matches ActionModel::Perform(step)
            && creates_pool(step) {
            1nat
        } else {
            0nat
        }
    }
}

/// The phases that `actions` announce, in their order.
pub open spec fn announcements(actions: Seq<ActionModel>) -> Seq<Phase>
    decreases actions.len(),
{
    if actions.len() == 0 {
        Seq::empty()
    } else {
        match actions.last() {
            ActionModel::Announce(phase) => announcements(actions.drop_last()).push(phase),
            _ => announcements(actions.drop_last()),
        }
    }
}

/// None of `commands` is run by the tool that manages pools.
pub open spec fn no_pool_tool(commands: Seq<CommandModel>) -> bool {
    forall|i: int| 0 <= i < commands.len() ==> (#[trigger] commands[i]).program != "zpool"@
}

/// None of `steps` creates a pool.
pub open spec fn no_pool_creation(steps: Seq<StepModel>) -> bool {
    forall|i: int| 0 <= i < steps.len() ==> !creates_pool(#[trigger] steps[i])
}

/// Pool creations are counted piece by piece.
pub proof fn lemma_creations_append(first: Seq<ActionModel>, second: Seq<ActionModel>)
    ensures
        pool_creations(first + second) == pool_creations(first) + pool_creations(second),
    decreases second.len(),
{
    if second.len() == 0 {
        assert(first + second =~= first);
    } else {
        let whole = first + second;
        assert(whole.last() == second.last());
        assert(whole.drop_last() =~= first + second.drop_last());
        lemma_creations_append(first, second.drop_last());
    }
}

/// Announcements are gathered piece by piece.
pub proof fn lemma_announcements_append(first: Seq<ActionModel>, second: Seq<ActionModel>)
    ensures
        announcements(first + second) == announcements(first) + announcements(second),
    decreases second.len(),
{
    if second.len() == 0 {
        assert(first + second =~= first);
        assert(announcements(first) + announcements(second) =~= announcements(first));
    } else {
        let whole = first + second;
        assert(whole.last() == second.last());
        assert(whole.drop_last() =~= first + second.drop_last());
        lemma_announcements_append(first, second.drop_last());
        assert(announcements(whole) =~= announcements(first) + announcements(second));
    }
}

/// Handing out steps announces nothing, and creates no pool where none
/// of the steps does.
pub proof fn lemma_performs(steps: Seq<StepModel>)
    ensures
        announcements(performs(steps)) == Seq::<Phase>::empty(),
        no_pool_creation(steps) ==> pool_creations(performs(steps)) == 0,
    decreases steps.len(),
{
    if steps.len() > 0 {
        let actions = performs(steps);
        assert(actions.drop_last() =~= performs(steps.drop_last()));
        assert(actions.last() == ActionModel::Perform(steps.last()));
        lemma_performs(steps.drop_last());
        if no_pool_creation(steps) {
            assert forall|i: int| 0 <= i < steps.drop_last().len() implies !creates_pool(
                #[trigger] steps.drop_last()[i],
            ) by {
                assert(steps.drop_last()[i] == steps[i]);
            }
        }
    }
}

/// A single action announces its phase, if it announces one, and creates
/// a pool only where it hands out a step that does.
pub proof fn lemma_single(action: ActionModel)
    ensures
        announcements(seq![action]) == match action {
            ActionModel::Announce(phase) => seq![phase],
            _ => Seq::<Phase>::empty(),
        },
        !(action is Perform) ==> pool_creations(seq![action]) == 0,
{
    let one = seq![action];
    assert(one.drop_last() =~= Seq::<ActionModel>::empty());
    assert(one.last() == action);
    assert(announcements(one.drop_last()) =~= Seq::<Phase>::empty());
    assert(pool_creations(one.drop_last()) == 0);
    match action {
        ActionModel::Announce(phase) => {
            assert(announcements(one) =~= seq![phase]);
        },
        _ => {},
    }
}

/// Two lists of commands that the pool's tool does not run make one such
/// list.
pub proof fn lemma_no_pool_tool_append(first: Seq<CommandModel>, second: Seq<CommandModel>)
    requires
        no_pool_tool(first),
        no_pool_tool(second),
    ensures
        no_pool_tool(first + second),
{
    assert forall|i: int| 0 <= i < (first + second).len() implies (#[trigger] (first
        + second)[i]).program != "zpool"@ by {
        if i < first.len() {
            assert((first + second)[i] == first[i]);
        } else {
            assert((first + second)[i] == second[i - first.len()]);
        }
    }
}

/// Preparing a device creates no pool: its steps run the tools for disks
/// only.
pub proof fn lemma_device_steps_create_no_pool(config: &Config, name: Seq<char>, path: Seq<char>)
    ensures
        no_pool_creation(device_steps(config, name, path)),
{
    reveal_strlit("zpool");
    reveal_strlit("wipefs");
    reveal_strlit("sgdisk");
    reveal_strlit("partprobe");
    reveal_strlit("mkfs.vfat");
    reveal_strlit("mkswap");
    // No tool for disks has a name as long as that of the pool's tool.
    assert("zpool"@.len() == 5);
    assert("wipefs"@.len() == 6 && "sgdisk"@.len() == 6 && "mkswap"@.len() == 6);
    assert("partprobe"@.len() == 9 && "mkfs.vfat"@.len() == 9);
    let parts = layout_partitions(name, path, config.swap_size);
    let wipe = wipe_commands(path);
    let gpt = gpt_commands(path);
    let efi = partition_commands(path, efi_partition(config.efi_size));
    let swap = if config.swap_size > 0 {
        partition_commands(path, swap_partition(config.swap_size))
    } else {
        Seq::<CommandModel>::empty()
    };
    let pool = partition_commands(path, zfs_partition(zfs_partition_number(config.swap_size)));
    let format = seq![format_efi_command(parts.efi)];
    let signature = match parts.swap {
        Some(swap) => seq![make_swap_command(swap)],
        None => Seq::<CommandModel>::empty(),
    };
    assert(no_pool_tool(wipe));
    assert(no_pool_tool(gpt));
    assert(no_pool_tool(efi));
    assert(no_pool_tool(swap));
    assert(no_pool_tool(pool));
    assert(no_pool_tool(format));
    assert(no_pool_tool(signature));
    lemma_no_pool_tool_append(wipe, gpt);
    lemma_no_pool_tool_append(wipe + gpt, efi);
    lemma_no_pool_tool_append(wipe + gpt + efi, swap);
    lemma_no_pool_tool_append(wipe + gpt + efi + swap, pool);
    lemma_no_pool_tool_append(wipe + gpt + efi + swap + pool, format);
    lemma_no_pool_tool_append(wipe + gpt + efi + swap + pool + format, signature);
    let commands = wipe + gpt + efi + swap + pool + format + signature;
    let steps = device_steps(config, name, path);
    assert(steps == disk_steps(commands, config.dry_run));
    assert forall|i: int| 0 <= i < steps.len() implies !creates_pool(#[trigger] steps[i]) by {
        assert(steps[i] == StepModel::run(commands[i], FailurePolicy::Disk, config.dry_run));
    }
}

/// Of the steps that create the pool and the datasets, the first creates
/// the pool and no other does.
pub proof fn lemma_zfs_steps_create_one_pool(config: &Config, partitions: Seq<ZbmPartitionsModel>)
    ensures
        creates_pool(create_zfs_steps(config, partitions)[0]),
        pool_creations(performs(create_zfs_steps(config, partitions))) == 1,
{
    reveal_strlit("zpool");
    reveal_strlit("zfs");
    assert("zpool"@.len() == 5 && "zfs"@.len() == 3);
    let steps = create_zfs_steps(config, partitions);
    let datasets = layout_steps(config.pool_name@, config.dry_run);
    let first = seq![steps[0]];
    assert(create_pool_command(
        config.pool_name@,
        config.raid_level,
        zfs_devices(partitions),
        config.ashift,
        config.compression,
    ).args[0] == "create"@);
    assert(no_pool_creation(datasets));
    assert(steps =~= first + datasets);
    assert(performs(steps) =~= performs(first) + performs(datasets));
    lemma_creations_append(performs(first), performs(datasets));
    lemma_performs(datasets);
    assert(performs(first) =~= seq![ActionModel::Perform(steps[0])]);
    assert(performs(first).drop_last() =~= Seq::<ActionModel>::empty());
    assert(performs(first).last() == ActionModel::Perform(steps[0]));
    assert(pool_creations(performs(first).drop_last()) == 0);
    assert(pool_creations(performs(first)) == 1);
}

/// Mounting, installing the boot chain and finishing create no pool.
pub proof fn lemma_later_steps_create_no_pool(config: &Config, tools: InitramfsTools)
    ensures
        no_pool_creation(mount_steps(config)),
        no_pool_creation(bootloader_plan(config, tools).steps),
        no_pool_creation(finalize_steps(config)),
{
    reveal_strlit("zpool");
    reveal_strlit("zfs");
    reveal_strlit("sync");
    reveal_strlit("set");
    reveal_strlit("create");
    reveal_strlit("curl");
    reveal_strlit("dracut");
    reveal_strlit("generate-zbm");
    reveal_strlit("mkinitcpio");
    reveal_strlit("bootctl");
    // The pool's tool is run once more, to set a property; no other tool
    // has a name as long as its name.
    assert("set"@.len() == 3 && "create"@.len() == 6);
    assert("zpool"@.len() == 5 && "zfs"@.len() == 3 && "sync"@.len() == 4);
    assert("curl"@.len() == 4 && "dracut"@.len() == 6 && "generate-zbm"@.len() == 12);
    assert("mkinitcpio"@.len() == 10 && "bootctl"@.len() == 7);
}

/// While disks are prepared no pool is created, and the one phase that
/// is announced is the creation of the pool, behind the last device.
pub proof fn lemma_disk_actions(config: &Config, answers: Answers, i: nat)
    ensures
        pool_creations(disk_actions(config, answers, i)) == 0,
        announcements(disk_actions(config, answers, i)) == if i < config.devices@.len() {
            seq![Phase::CreateZfs]
        } else {
            Seq::<Phase>::empty()
        },
    decreases config.devices@.len() - i,
{
    if i < config.devices@.len() {
        let steps = steps_of_device(config, answers, i as int);
        let device = device_at(config, answers, i as int)->Ok_0;
        let then = seq![after_device(config, i as int)];
        let later = disk_actions(config, answers, i + 1);
        lemma_device_steps_create_no_pool(config, device.name, device.path);
        lemma_performs(steps);
        lemma_single(after_device(config, i as int));
        lemma_disk_actions(config, answers, i + 1);
        lemma_creations_append(then, later);
        lemma_creations_append(performs(steps), then + later);
        lemma_announcements_append(then, later);
        lemma_announcements_append(performs(steps), then + later);
        assert(announcements(disk_actions(config, answers, i)) =~= seq![Phase::CreateZfs]);
    }
}

/// The pool's partitions of all devices: for each device in the order of
/// the configuration, its last partition.
pub proof fn lemma_pool_devices(config: &Config, answers: Answers, count: nat)
    ensures
        zfs_devices(laid_out(config, answers, count)).len() == count,
        forall|i: int|
            0 <= i < count ==> #[trigger] zfs_devices(laid_out(config, answers, count))[i]
                == partition_path(
                device_at(config, answers, i)->Ok_0.name,
                device_at(config, answers, i)->Ok_0.path,
                zfs_partition_number(config.swap_size),
            ),
    decreases count,
{
    if count > 0 {
        lemma_pool_devices(config, answers, (count - 1) as nat);
        let before = laid_out(config, answers, (count - 1) as nat);
        let all = laid_out(config, answers, count);
        assert forall|i: int| 0 <= i < count implies #[trigger] zfs_devices(all)[i]
            == partition_path(
            device_at(config, answers, i)->Ok_0.name,
            device_at(config, answers, i)->Ok_0.path,
            zfs_partition_number(config.swap_size),
        ) by {
            if i < count - 1 {
                assert(all[i] == before[i]);
                assert(zfs_devices(all)[i] == zfs_devices(before)[i]);
            }
        }
    }
}

/// The command that creates the pool ends in the pool's name, the keyword
/// of the RAID level where it has one, and the devices in their order.
pub proof fn lemma_pool_command_ends_in_devices(
    name: Seq<char>,
    raid_level: RaidLevel,
    devices: Seq<Seq<char>>,
    ashift: Option<u8>,
    compression: Compression,
)
    ensures
        ({
            let args = create_pool_command(name, raid_level, devices, ashift, compression).args;
            let keyword = vdev_args(raid_level);
            &&& args.len() >= 1 + keyword.len() + devices.len()
            &&& args.subrange(args.len() - devices.len(), args.len() as int) == devices
            &&& args.subrange(
                args.len() - devices.len() - keyword.len(),
                args.len() - devices.len(),
            ) == keyword
            &&& args[args.len() - devices.len() - keyword.len() - 1] == name
        }),
{
    let args = create_pool_command(name, raid_level, devices, ashift, compression).args;
    let keyword = vdev_args(raid_level);
    assert(args.subrange(args.len() - devices.len(), args.len() as int) =~= devices);
    assert(args.subrange(args.len() - devices.len() - keyword.len(), args.len() - devices.len())
        =~= keyword);
}

/// The phases that an installation in which nothing fails announces:
/// all in their order, migration for existing systems only, and the last
/// phase only where a tool for the initramfs is found.
pub open spec fn smooth_phases(config: &Config, answers: Answers) -> Seq<Phase> {
    seq![Phase::Validate, Phase::PrepareDisks, Phase::CreateZfs, Phase::MountFilesystem] + (
    later_phases(config, answers))
}

/// The phases that are announced behind the mounting.
pub open spec fn later_phases(config: &Config, answers: Answers) -> Seq<Phase> {
    (if config.mode == InstallMode::Existing {
        seq![Phase::MigrateSystem]
    } else {
        Seq::<Phase>::empty()
    }) + (seq![Phase::InstallBootloader] + if bootloader_plan(config, answers.tools).failure
        is None {
        seq![Phase::Finalize]
    } else {
        Seq::<Phase>::empty()
    })
}

/// In an installation in which nothing fails the phases are announced
/// once each, in their order, and the pool is created once. This holds
/// also where the installation ends at the boot chain for want of a tool
/// for the initramfs.
#[verifier::rlimit(60)]
pub proof fn lemma_smooth_installation_in_order(config: &Config, answers: Answers)
    requires
        config.devices@.len() > 0,
    ensures
        announcements(smooth_actions(config, answers)) == smooth_phases(config, answers),
        pool_creations(smooth_actions(config, answers)) == 1,
{
    let all = laid_out(config, answers, config.devices@.len());
    let a_start = start_actions(config);
    let a_disks = disk_actions(config, answers, 0);
    let zfs = create_zfs_steps(config, all);
    let a_zfs = phase_actions(zfs, ActionModel::Announce(Phase::MountFilesystem));
    let t3 = course_behind_the_pool(config, answers);
    let t2 = a_zfs + t3;
    let t1 = a_disks + t2;

    lemma_tail_of_course(config, answers);
    lemma_zfs_steps_create_one_pool(config, all);
    lemma_performs(zfs);
    lemma_single(ActionModel::Announce(Phase::MountFilesystem));
    lemma_creations_append(performs(zfs), seq![ActionModel::Announce(Phase::MountFilesystem)]);
    lemma_announcements_append(
        performs(zfs),
        seq![ActionModel::Announce(Phase::MountFilesystem)],
    );
    lemma_creations_append(a_zfs, t3);
    lemma_announcements_append(a_zfs, t3);
    lemma_disk_actions(config, answers, 0);
    lemma_creations_append(a_disks, t2);
    lemma_announcements_append(a_disks, t2);
    lemma_start_actions(config);
    lemma_creations_append(a_start, t1);
    lemma_announcements_append(a_start, t1);
    assert(smooth_actions(config, answers) == a_start + t1);
    assert(announcements(a_zfs) =~= seq![Phase::MountFilesystem]);
    assert(announcements(t2) =~= seq![Phase::MountFilesystem] + later_phases(config, answers));
    assert(announcements(t1) =~= seq![Phase::CreateZfs] + announcements(t2));
    assert(announcements(smooth_actions(config, answers)) =~= smooth_phases(config, answers));
}

/// What an installation in which nothing fails asks for behind the
/// creation of the pool and the datasets.
pub open spec fn course_behind_the_pool(config: &Config, answers: Answers) -> Seq<ActionModel> {
    phase_actions(mount_steps(config), after_phase(config, Phase::MountFilesystem)) + (
    migration_actions(config) + (boot_actions(config, answers) + closing_actions(
        config,
        answers,
    )))
}

/// Behind the creation of the pool and the datasets no pool is created,
/// and the phases that follow are announced in their order.
#[verifier::rlimit(60)]
pub proof fn lemma_tail_of_course(config: &Config, answers: Answers)
    ensures
        pool_creations(course_behind_the_pool(config, answers)) == 0,
        announcements(course_behind_the_pool(config, answers)) == later_phases(config, answers),
{
    let a_mount = phase_actions(mount_steps(config), after_phase(config, Phase::MountFilesystem));
    let a_migrate = migration_actions(config);
    let plan = bootloader_plan(config, answers.tools);
    let boot = plan.steps;
    let a_boot = boot_actions(config, answers);
    let a_final = closing_actions(config, answers);
    let t5 = a_boot + a_final;
    let t4 = a_migrate + t5;

    lemma_later_steps_create_no_pool(config, answers.tools);
    lemma_performs(mount_steps(config));
    lemma_performs(boot);
    lemma_performs(finalize_steps(config));
    lemma_performs(Seq::<StepModel>::empty());
    lemma_single(after_phase(config, Phase::MountFilesystem));
    lemma_single(ActionModel::Announce(Phase::InstallBootloader));
    lemma_single(after_boot(config, answers));
    lemma_single(ActionModel::ProbeTools);
    lemma_single(ActionModel::Finish);

    // The last phase.
    if plan.failure is None {
        lemma_creations_append(performs(finalize_steps(config)), seq![ActionModel::Finish]);
        lemma_announcements_append(performs(finalize_steps(config)), seq![ActionModel::Finish]);
    } else {
        assert(a_final =~= Seq::<ActionModel>::empty());
    }
    assert(pool_creations(a_final) == 0);
    assert(announcements(a_final) =~= Seq::<Phase>::empty());
    // The boot chain.
    let boot_body = phase_actions(boot, after_boot(config, answers));
    lemma_creations_append(performs(boot), seq![after_boot(config, answers)]);
    lemma_announcements_append(performs(boot), seq![after_boot(config, answers)]);
    lemma_creations_append(seq![ActionModel::ProbeTools], boot_body);
    lemma_announcements_append(seq![ActionModel::ProbeTools], boot_body);
    lemma_creations_append(a_boot, a_final);
    lemma_announcements_append(a_boot, a_final);
    assert(announcements(t5) =~= if plan.failure is None {
        seq![Phase::Finalize]
    } else {
        Seq::<Phase>::empty()
    });
    // The migration.
    if config.mode == InstallMode::Existing {
        lemma_creations_append(
            performs(Seq::<StepModel>::empty()),
            seq![ActionModel::Announce(Phase::InstallBootloader)],
        );
        lemma_announcements_append(
            performs(Seq::<StepModel>::empty()),
            seq![ActionModel::Announce(Phase::InstallBootloader)],
        );
    } else {
        assert(a_migrate =~= Seq::<ActionModel>::empty());
    }
    lemma_creations_append(a_migrate, t5);
    lemma_announcements_append(a_migrate, t5);
    assert(announcements(t4) =~= (if config.mode == InstallMode::Existing {
        seq![Phase::InstallBootloader]
    } else {
        Seq::<Phase>::empty()
    }) + announcements(t5));
    // The mounting.
    lemma_creations_append(
        performs(mount_steps(config)),
        seq![after_phase(config, Phase::MountFilesystem)],
    );
    lemma_announcements_append(
        performs(mount_steps(config)),
        seq![after_phase(config, Phase::MountFilesystem)],
    );
    lemma_creations_append(a_mount, t4);
    lemma_announcements_append(a_mount, t4);
    assert(announcements(a_mount) =~= seq![
        if config.mode == InstallMode::Existing {
            Phase::MigrateSystem
        } else {
            Phase::InstallBootloader
        },
    ]);
    assert(announcements(a_mount + t4) =~= later_phases(config, answers));
}

/// In an installation in which nothing fails the pool is created by the
/// first step after the last device is laid out and before the first
/// dataset is created, over the pool partitions of all devices; no step
/// before it creates a pool. This holds also where the installation ends
/// at the boot chain.
pub proof fn lemma_pool_is_created_behind_the_disks(config: &Config, answers: Answers)
    ensures
        ({
            let before = start_actions(config) + disk_actions(config, answers, 0);
            let all = laid_out(config, answers, config.devices@.len());
            let actions = smooth_actions(config, answers);
            &&& before.len() + 1 + DATASET_COUNT < actions.len()
            &&& actions.take(before.len() as int) == before
            &&& pool_creations(before) == 0
            &&& actions[before.len() as int] == ActionModel::Perform(
                StepModel::run(
                    create_pool_command(
                        config.pool_name@,
                        config.raid_level,
                        zfs_devices(all),
                        config.ashift,
                        config.compression,
                    ),
                    FailurePolicy::Zfs,
                    config.dry_run,
                ),
            )
            &&& actions.subrange(before.len() as int + 1, before.len() as int + 1 + DATASET_COUNT)
                == performs(layout_steps(config.pool_name@, config.dry_run))
        }),
{
    let all = laid_out(config, answers, config.devices@.len());
    let a_start = start_actions(config);
    let a_disks = disk_actions(config, answers, 0);
    let zfs = create_zfs_steps(config, all);
    let a_zfs = phase_actions(zfs, ActionModel::Announce(Phase::MountFilesystem));
    let t3 = course_behind_the_pool(config, answers);
    let t2 = a_zfs + t3;
    let actions = smooth_actions(config, answers);
    let before = a_start + a_disks;
    lemma_start_actions(config);
    lemma_disk_actions(config, answers, 0);
    lemma_creations_append(a_start, a_disks);
    assert(actions =~= before + t2);
    assert(actions.take(before.len() as int) =~= before);
    assert(zfs.len() == 1 + DATASET_COUNT);
    assert(a_zfs.len() == zfs.len() + 1);
    assert(actions[before.len() as int] == t2[0]);
    assert(t2[0] == a_zfs[0]);
    assert(a_zfs[0] == performs(zfs)[0]);
    assert forall|j: int| 0 <= j < DATASET_COUNT implies #[trigger] actions[before.len() + 1 + j]
        == performs(layout_steps(config.pool_name@, config.dry_run))[j] by {
        assert(actions[before.len() + 1 + j] == t2[1 + j]);
        assert(t2[1 + j] == a_zfs[1 + j]);
        assert(a_zfs[1 + j] == performs(zfs)[1 + j]);
        assert(zfs[1 + j] == layout_steps(config.pool_name@, config.dry_run)[j]);
    }
    assert(actions.subrange(before.len() as int + 1, before.len() as int + 1 + DATASET_COUNT)
        =~= performs(layout_steps(config.pool_name@, config.dry_run)));
}

/// The start announces the checks and the disks, and creates no pool.
pub proof fn lemma_start_actions(config: &Config)
    ensures
        announcements(start_actions(config)) == seq![Phase::Validate, Phase::PrepareDisks],
        pool_creations(start_actions(config)) == 0,
{
    let first = ActionModel::ResolveDevice(base_name(config.devices@[0]@)->0);
    let head = seq![ActionModel::Announce(Phase::Validate)];
    let gather = seq![ActionModel::GatherFacts];
    let disks = seq![ActionModel::Announce(Phase::PrepareDisks)];
    let turn = seq![first];
    lemma_single(ActionModel::Announce(Phase::Validate));
    lemma_single(ActionModel::GatherFacts);
    lemma_single(ActionModel::Announce(Phase::PrepareDisks));
    lemma_single(first);
    lemma_creations_append(disks, turn);
    lemma_announcements_append(disks, turn);
    if config.skip_preflight {
        lemma_creations_append(head, disks + turn);
        lemma_announcements_append(head, disks + turn);
        assert(start_actions(config) =~= head + (disks + turn));
    } else {
        lemma_creations_append(gather, disks + turn);
        lemma_announcements_append(gather, disks + turn);
        lemma_creations_append(head, gather + (disks + turn));
        lemma_announcements_append(head, gather + (disks + turn));
        assert(start_actions(config) =~= head + (gather + (disks + turn)));
    }
    assert(announcements(start_actions(config)) =~= seq![Phase::Validate, Phase::PrepareDisks]);
}

/// A dry run in which nothing fails performs nothing and mounts nothing:
/// every step that is handed out is simulated, and the phase that mounts
/// the boot environment has no steps.
pub proof fn lemma_smooth_dry_run(config: &Config, answers: Answers)
    requires
        config.dry_run,
        config.devices@.len() > 0,
        checks_pass(config, answers),
        devices_resolve(config, answers),
    ensures
        mount_steps(config).len() == 0,
        forall|j: int|
            0 <= j < smooth_actions(config, answers).len() ==> !(#[trigger] smooth_actions(
                config,
                answers,
            )[j] is Perform) || smooth_actions(config, answers)[j]->Perform_0.simulated,
{
    lemma_smooth_installation(config, answers);
    lemma_dry_run_performs_nothing(
        config,
        EngineModel::initial(),
        smooth_events(config, answers),
    );
}

} // verus!
