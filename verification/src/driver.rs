//! One reconciliation pass, as a state machine.
//!
//! A pass queries the GPUs, analyzes the snapshot and then, at most, either
//! enables MIG mode and asks for a reboot, or applies the partition profile.
//! The host program runs the command that the current phase awaits and hands
//! the outcome to `advance`, until `advance` says that the pass is over.
//! Nothing is retried: the first command that fails ends the pass.

use crate::analyzer::{
    aggregate_mode,
    analyze_mig_status,
    every_gpu_reports,
    fleet_is_capable,
    lemma_uniform_fleet,
    record_is_capable,
    resolve_pair,
};
use crate::error::{Error, ErrorView};
use crate::executor::{
    command_result,
    completion,
    request_reboot,
    set_mig_mode,
    set_mig_profile,
    HardwareCommand,
    ProcessOutcome,
    ProcessOutcomeView,
};
use crate::reader::{query_result, run_gpu_query};
use crate::state::{GpuModeRecordView, MigState};
use vstd::prelude::*;

verus! {

/// What a pass does once the fleet is analyzed.
#[derive(Clone, Copy, Debug, PartialEq, Eq, Structural)]
pub enum Plan {
    /// Nothing: the hardware is not MIG-capable, or its mode is in transition
    /// or unknown and not to be touched.
    NoAction,
    /// Enable MIG mode, query once more, then ask for a reboot.
    EnableAndReboot,
    /// Apply the partition profile.
    ApplyProfile,
}

/// The plan for a fleet of this capability and aggregated mode.
pub open spec fn plan_for(capable: bool, mode: MigState) -> Plan {
    if !capable {
        Plan::NoAction
    } else {
        match mode {
            MigState::Disabled => Plan::EnableAndReboot,
            MigState::Enabled => Plan::ApplyProfile,
            MigState::Transition | MigState::Unknown => Plan::NoAction,
        }
    }
}

/// Selects what to do for a fleet of this capability and aggregated mode.
pub fn select_plan(capable: bool, mode: MigState) -> (plan: Plan)
    ensures
        plan == plan_for(capable, mode),
{
    if !capable {
        Plan::NoAction
    } else {
        match mode {
            MigState::Disabled => Plan::EnableAndReboot,
            MigState::Enabled => Plan::ApplyProfile,
            MigState::Transition | MigState::Unknown => Plan::NoAction,
        }
    }
}

/// Where a pass stands: the command whose outcome it awaits.
#[derive(Clone, Copy, Debug, PartialEq, Eq, Structural)]
pub enum Phase {
    /// The first query of the GPUs.
    Querying,
    /// The command that enables MIG mode.
    Enabling,
    /// The query after MIG mode was enabled.
    Requerying,
    /// The request for a reboot.
    Rebooting,
    /// The command that applies the partition profile.
    Profiling,
}

impl Phase {
    /// The command whose outcome the phase awaits.
    pub open spec fn awaited(self) -> HardwareCommand {
        match self {
            Phase::Querying | Phase::Requerying => HardwareCommand::QueryModes,
            Phase::Enabling => HardwareCommand::EnableMig,
            Phase::Rebooting => HardwareCommand::Reboot,
            Phase::Profiling => HardwareCommand::ApplyProfile,
        }
    }

    /// The most commands that a pass in this phase still runs, the awaited
    /// one included.
    pub open spec fn commands_left(self) -> nat {
        match self {
            Phase::Querying => 4,
            Phase::Enabling => 3,
            Phase::Requerying => 2,
            Phase::Rebooting => 1,
            Phase::Profiling => 1,
        }
    }

    /// The command to run in this phase.
    pub fn command(&self) -> (command: HardwareCommand)
        ensures
            command == self.awaited(),
    {
        match self {
            Phase::Querying | Phase::Requerying => HardwareCommand::QueryModes,
            Phase::Enabling => HardwareCommand::EnableMig,
            Phase::Rebooting => HardwareCommand::Reboot,
            Phase::Profiling => HardwareCommand::ApplyProfile,
        }
    }
}

/// How a pass goes on after a command.
#[derive(Debug, PartialEq, Eq)]
pub enum Step {
    /// Run the command of this phase next.
    Continue(Phase),
    /// The pass is over, with this result.
    Finish(Result<(), Error>),
}

/// A `Step` with its error taken by its view.
pub enum StepView {
    Continue(Phase),
    Finish(Result<(), ErrorView>),
}

impl View for Step {
    type V = StepView;

    open spec fn view(&self) -> StepView {
        match self {
            Step::Continue(phase) => StepView::Continue(*phase),
            Step::Finish(Ok(_)) => StepView::Finish(Ok(())),
            Step::Finish(Err(error)) => StepView::Finish(Err(error@)),
        }
    }
}

/// What `advance` makes of an outcome: how the pass goes on, and, after a
/// query that succeeded, what the analysis of its snapshot found. The
/// analysis is there to be logged.
#[derive(Debug, PartialEq, Eq)]
pub struct Progress {
    pub step: Step,
    pub analysis: Option<(bool, MigState)>,
}

/// `Progress` with its step taken by its view.
pub struct ProgressView {
    pub step: StepView,
    pub analysis: Option<(bool, MigState)>,
}

impl View for Progress {
    type V = ProgressView;

    open spec fn view(&self) -> ProgressView {
        ProgressView { step: self.step@, analysis: self.analysis }
    }
}

/// The end of a pass on an error.
pub open spec fn failed(error: ErrorView) -> ProgressView {
    ProgressView { step: StepView::Finish(Err(error)), analysis: None }
}

/// The step after a command whose output is of no interest: on to `then`
/// if it succeeded, the end of the pass on its error if not.
pub open spec fn after_completion(
    command: HardwareCommand,
    outcome: ProcessOutcomeView,
    then: StepView,
) -> ProgressView {
    match completion(command, outcome) {
        Ok(_) => ProgressView { step: then, analysis: None },
        Err(error) => failed(error),
    }
}

/// The step after the first query, by the plan for the fleet.
pub open spec fn step_for(plan: Plan) -> StepView {
    match plan {
        Plan::NoAction => StepView::Finish(Ok(())),
        Plan::EnableAndReboot => StepView::Continue(Phase::Enabling),
        Plan::ApplyProfile => StepView::Continue(Phase::Profiling),
    }
}

/// What a snapshot is analyzed to: whether the fleet is MIG-capable, and its
/// aggregated mode.
pub open spec fn analysis_of(fleet: Seq<GpuModeRecordView>) -> (bool, MigState) {
    (fleet_is_capable(fleet), aggregate_mode(fleet))
}

/// The transition of a pass in `phase` on the outcome of the awaited command.
///
/// A command that did not start or that failed ends the pass on its error,
/// whatever the phase. Otherwise:
/// - the first query is analyzed, and the plan for the fleet decides;
/// - after MIG mode was enabled the GPUs are queried once more;
/// - that second query is analyzed too, but whatever it finds, the reboot
///   is requested next;
/// - after the request for a reboot, and after the partition profile was
///   applied, the pass is over.
pub open spec fn next(phase: Phase, outcome: ProcessOutcomeView) -> ProgressView {
    match phase {
        Phase::Querying => match query_result(outcome) {
            Ok(fleet) => ProgressView {
                step: step_for(plan_for(fleet_is_capable(fleet), aggregate_mode(fleet))),
                analysis: Some(analysis_of(fleet)),
            },
            Err(error) => failed(error),
        },
        Phase::Enabling => after_completion(
            HardwareCommand::EnableMig,
            outcome,
            StepView::Continue(Phase::Requerying),
        ),
        Phase::Requerying => match query_result(outcome) {
            Ok(fleet) => ProgressView {
                step: StepView::Continue(Phase::Rebooting),
                analysis: Some(analysis_of(fleet)),
            },
            Err(error) => failed(error),
        },
        Phase::Rebooting => after_completion(
            HardwareCommand::Reboot,
            outcome,
            StepView::Finish(Ok(())),
        ),
        Phase::Profiling => after_completion(
            HardwareCommand::ApplyProfile,
            outcome,
            StepView::Finish(Ok(())),
        ),
    }
}

/// A command that does not start, or that fails, ends the pass on its
/// error, whatever the phase.
pub proof fn lemma_failure_ends_the_pass(phase: Phase, outcome: ProcessOutcomeView)
    requires
        command_result(phase.awaited().program(), outcome) is Err,
    ensures
        next(phase, outcome) == failed(
            command_result(phase.awaited().program(), outcome)->Err_0,
        ),
{
}

/// Every step takes the pass nearer to its end, so that a pass runs four
/// commands at most.
pub proof fn lemma_pass_ends(phase: Phase, outcome: ProcessOutcomeView)
    ensures
        phase.commands_left() <= 4,
        next(phase, outcome).step matches StepView::Continue(then) ==> then.commands_left()
            < phase.commands_left(),
{
}

/// After a first query that finds every GPU of a non-empty fleet reporting
/// one pair of known modes, the pass goes on by the plan for what the pair
/// resolves to: it enables MIG mode if all is `Disabled`, applies the
/// partition profile if all is `Enabled`, and ends without action otherwise.
pub proof fn lemma_uniform_fleet_decides(
    outcome: ProcessOutcomeView,
    current: MigState,
    pending: MigState,
)
    requires
        query_result(outcome) is Ok,
        query_result(outcome)->Ok_0.len() > 0,
        every_gpu_reports(query_result(outcome)->Ok_0, current, pending),
        current != MigState::Unknown || pending != MigState::Unknown,
    ensures
        next(Phase::Querying, outcome).step == step_for(
            plan_for(true, resolve_pair(current, pending)),
        ),
        next(Phase::Querying, outcome).analysis == Some((true, resolve_pair(current, pending))),
{
    let fleet = query_result(outcome)->Ok_0;
    lemma_uniform_fleet(fleet, current, pending);
    assert(record_is_capable(fleet[0]));
}

/// After a first query that finds no GPU with a known mode, the pass ends
/// without action and without error.
pub proof fn lemma_incapable_fleet_is_left_alone(outcome: ProcessOutcomeView)
    requires
        query_result(outcome) is Ok,
        !fleet_is_capable(query_result(outcome)->Ok_0),
    ensures
        next(Phase::Querying, outcome).step == StepView::Finish(Ok(())),
{
}

/// The phase in which every pass begins.
pub fn start() -> (phase: Phase)
    ensures
        phase == Phase::Querying,
{
    Phase::Querying
}

/// Ends the pass on an error.
fn fail(error: Error) -> (progress: Progress)
    ensures
        progress@ == failed(error@),
{
    Progress { step: Step::Finish(Err(error)), analysis: None }
}

/// Goes on to `then` if the command succeeded, and ends the pass on its
/// error if not.
fn proceed(completed: Result<(), Error>, then: Step) -> (progress: Progress)
    ensures
        progress@ == match completed {
            Ok(_) => ProgressView { step: then@, analysis: None },
            Err(error) => failed(error@),
        },
{
    match completed {
        Ok(_) => Progress { step: then, analysis: None },
        Err(error) => fail(error),
    }
}

/// Takes the pass one step on: from the phase it is in and the outcome of
/// the command that the phase awaits, to what follows.
pub fn advance(phase: Phase, outcome: ProcessOutcome) -> (progress: Progress)
    ensures
        progress@ == next(phase, outcome@),
        progress.step matches Step::Continue(then) ==> then.commands_left()
            < phase.commands_left(),
{
    match phase {
        Phase::Querying => match run_gpu_query(outcome) {
            Ok(modes) => {
                let (is_mig_capable, overall_mig_mode) = analyze_mig_status(&modes);
                let step = match select_plan(is_mig_capable, overall_mig_mode) {
                    Plan::NoAction => Step::Finish(Ok(())),
                    Plan::EnableAndReboot => Step::Continue(Phase::Enabling),
                    Plan::ApplyProfile => Step::Continue(Phase::Profiling),
                };
                Progress { step, analysis: Some((is_mig_capable, overall_mig_mode)) }
            },
            Err(error) => fail(error),
        },
        Phase::Enabling => proceed(set_mig_mode(outcome), Step::Continue(Phase::Requerying)),
        Phase::Requerying => match run_gpu_query(outcome) {
            Ok(modes) => {
                // What the second query finds is reported, not acted on.
                let status = analyze_mig_status(&modes);
                Progress { step: Step::Continue(Phase::Rebooting), analysis: Some(status) }
            },
            Err(error) => fail(error),
        },
        Phase::Rebooting => proceed(request_reboot(outcome), Step::Finish(Ok(()))),
        Phase::Profiling => proceed(set_mig_profile(outcome), Step::Finish(Ok(()))),
    }
}

} // verus!
