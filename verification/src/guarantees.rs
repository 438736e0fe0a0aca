//! What holds of every installation, whatever is configured and whatever
//! the system answers.

use crate::bootloader::systemd_boot::systemd_boot_steps;
use crate::bootloader::zbm::{zbm_plan, InitramfsTools};
use crate::command::Outcome;
use crate::config::{Config, InstallMode};
use crate::installer::{
    bootloader_plan, create_zfs_steps, device_steps, finalize_steps, mount_steps, ActionModel,
    EngineModel, Event, Phase, Progress,
};
use crate::disk::operations::ZbmPartitionsModel;
use vstd::prelude::*;

verus! {

/// The actions that the engine gives, one for each of `events`, from the
/// state `state` on.
pub open spec fn run(config: &Config, state: EngineModel, events: Seq<Event>) -> Seq<ActionModel>
    decreases events.len(),
{
    if events.len() == 0 {
        Seq::empty()
    } else {
        let (next, action) = state.step(config, &events[0]);
        seq![action] + run(config, next, events.drop_first())
    }
}

/// Two events that tell the engine the same, outcomes of steps aside.
pub open spec fn same_answer(a: Event, b: Event) -> bool {
    (a is Outcome && b is Outcome) || a == b
}

/// Every step of the work that a phase takes up is simulated exactly in a
/// dry run.
pub proof fn lemma_work_follows_mode(
    config: &Config,
    name: Seq<char>,
    path: Seq<char>,
    partitions: Seq<ZbmPartitionsModel>,
    tools: InitramfsTools,
)
    ensures
        forall|i: int|
            0 <= i < device_steps(config, name, path).len() ==> (#[trigger] device_steps(
                config,
                name,
                path,
            )[i]).simulated == config.dry_run,
        forall|i: int|
            0 <= i < create_zfs_steps(config, partitions).len() ==> (#[trigger] create_zfs_steps(
                config,
                partitions,
            )[i]).simulated == config.dry_run,
        forall|i: int|
            0 <= i < mount_steps(config).len() ==> (#[trigger] mount_steps(config)[i]).simulated
                == config.dry_run,
        forall|i: int|
            0 <= i < bootloader_plan(config, tools).steps.len() ==> (#[trigger] bootloader_plan(
                config,
                tools,
            ).steps[i]).simulated == config.dry_run,
        forall|i: int|
            0 <= i < finalize_steps(config).len() ==> (#[trigger] finalize_steps(
                config,
            )[i]).simulated == config.dry_run,
{
}

/// The engine keeps its state well-formed.
pub proof fn lemma_step_keeps_wf(config: &Config, state: EngineModel, event: Event)
    requires
        state.wf(config),
    ensures
        state.step(config, &event).0.wf(config),
{
    match event {
        Event::Device(attributes) => {
            if state.progress == Progress::AwaitingDevice {
                let name = crate::disk::discovery::base_name(
                    config.devices@[state.cursor as int]@,
                )->0;
                match crate::disk::block_device::device_of(name, &attributes) {
                    Ok(device) => {
                        lemma_work_follows_mode(
                            config,
                            device.name,
                            device.path,
                            state.partitions,
                            InitramfsTools { dracut: false, mkinitcpio: false, generate_zbm: false },
                        );
                    },
                    Err(_) => {},
                }
            }
        },
        Event::Tools(tools) => {
            lemma_work_follows_mode(config, Seq::empty(), Seq::empty(), state.partitions, tools);
        },
        _ => {
            lemma_work_follows_mode(
                config,
                Seq::empty(),
                Seq::empty(),
                state.partitions,
                InitramfsTools { dracut: false, mkinitcpio: false, generate_zbm: false },
            );
        },
    }
}

/// Phases are strictly sequential: no event takes the installation back
/// to an earlier phase.
pub proof fn lemma_phases_never_go_back(config: &Config, state: EngineModel, event: Event)
    requires
        state.wf(config),
    ensures
        state.step(config, &event).0.phase.rank() >= state.phase.rank(),
{
}

/// Phases follow each other in their order: an event leaves the
/// installation in its phase or takes it to the phase that follows.
pub proof fn lemma_phases_follow_in_order(config: &Config, state: EngineModel, event: Event)
    requires
        state.wf(config),
    ensures
        state.step(config, &event).0.phase == state.phase || state.phase.successor(config.mode)
            == Some(state.step(config, &event).0.phase),
{
}

/// Migration is entered by installations of existing systems only.
pub proof fn lemma_migration_needs_existing_mode(config: &Config, state: EngineModel, event: Event)
    ensures
        state.step(config, &event).1 == ActionModel::Announce(Phase::MigrateSystem)
            ==> config.mode == InstallMode::Existing,
{
}

/// The first failure is final: an installation that ended, in success or
/// in an error, stays as it is and hands out no further step.
pub proof fn lemma_finished_stays_finished(config: &Config, state: EngineModel, event: Event)
    requires
        state.progress == Progress::Completed || state.progress == Progress::Aborted,
    ensures
        state.step(config, &event).0 == state,
        !(state.step(config, &event).1 is Perform),
{
}

/// An error ends the installation at once: with the action that aborts,
/// the engine is in its final state.
pub proof fn lemma_abort_is_final(config: &Config, state: EngineModel, event: Event)
    ensures
        state.step(config, &event).1 is Abort ==> state.step(config, &event).0.progress
            == Progress::Aborted,
{
}

/// A dry run performs nothing: every step that the engine hands out is
/// simulated.
pub proof fn lemma_dry_run_only_simulates(config: &Config, state: EngineModel, event: Event)
    requires
        state.wf(config),
        config.dry_run,
    ensures
        state.step(config, &event).1 matches ActionModel::Perform(step) ==> step.simulated,
{
    lemma_step_keeps_wf(config, state, event);
    let after = state.step(config, &event);
    if after.1 is Perform {
        assert(after.0.progress == Progress::AwaitingOutcome);
        assert(after.1->Perform_0 == after.0.queue[after.0.next as int]);
    }
}

/// In a dry run it does not matter what is reported of a step: the engine
/// goes on in the same way.
pub proof fn lemma_dry_run_ignores_outcomes(
    config: &Config,
    state: EngineModel,
    a: Outcome,
    b: Outcome,
)
    requires
        state.wf(config),
        config.dry_run,
    ensures
        state.step(config, &Event::Outcome(a)) == state.step(config, &Event::Outcome(b)),
{
}

/// Dry runs are reproducible: two dry runs under the same configuration
/// that are told the same about the system give the same actions in the
/// same order, whatever is reported of the simulated steps.
pub proof fn lemma_dry_run_is_reproducible(
    config: &Config,
    state: EngineModel,
    first: Seq<Event>,
    second: Seq<Event>,
)
    requires
        state.wf(config),
        config.dry_run,
        first.len() == second.len(),
        forall|i: int| 0 <= i < first.len() ==> same_answer(#[trigger] first[i], second[i]),
    ensures
        run(config, state, first) == run(config, state, second),
    decreases first.len(),
{
    if first.len() > 0 {
        assert(same_answer(first[0], second[0]));
        if first[0] is Outcome {
            lemma_dry_run_ignores_outcomes(
                config,
                state,
                first[0]->Outcome_0,
                second[0]->Outcome_0,
            );
        }
        lemma_step_keeps_wf(config, state, first[0]);
        let next = state.step(config, &first[0]).0;
        assert forall|i: int| 0 <= i < first.drop_first().len() implies same_answer(
            #[trigger] first.drop_first()[i],
            second.drop_first()[i],
        ) by {
            assert(same_answer(first[i + 1], second[i + 1]));
        }
        lemma_dry_run_is_reproducible(config, next, first.drop_first(), second.drop_first());
    }
}

/// Over a whole dry run nothing is performed: every step that the engine
/// hands out, whatever it is told, is simulated.
pub proof fn lemma_dry_run_performs_nothing(
    config: &Config,
    state: EngineModel,
    events: Seq<Event>,
)
    requires
        state.wf(config),
        config.dry_run,
    ensures
        forall|j: int|
            0 <= j < run(config, state, events).len() ==> !(#[trigger] run(
                config,
                state,
                events,
            )[j] is Perform) || run(config, state, events)[j]->Perform_0.simulated,
    decreases events.len(),
{
    if events.len() > 0 {
        let after = state.step(config, &events[0]);
        let later = run(config, after.0, events.drop_first());
        lemma_dry_run_only_simulates(config, state, events[0]);
        lemma_step_keeps_wf(config, state, events[0]);
        lemma_dry_run_performs_nothing(config, after.0, events.drop_first());
        assert forall|j: int| 0 <= j < run(config, state, events).len() implies !(#[trigger] run(
            config,
            state,
            events,
        )[j] is Perform) || run(config, state, events)[j]->Perform_0.simulated by {
            if j > 0 {
                assert(run(config, state, events)[j] == later[j - 1]);
            }
        }
    }
}

} // verus!
