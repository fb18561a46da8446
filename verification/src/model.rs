//! A whole run, from the first action to its outcome.
//!
//! [`World`] holds what each collaborator answers when it is asked.
//! [`expected`] says from that alone how a run ends; [`drive`] plays the
//! answers back to the state machine of [`crate::run`], one event for each
//! action. The module [`crate::laws`] proves that the two agree.

use crate::error::RunnerError;
use crate::evaluator::{
    failure_of, EvaluatorKind, MetricsEvaluatorInput, SystemInformationEvaluatorInput,
};
use crate::finding::{all_pass, Finding};
use crate::run::{
    deadline_of, outcome, seek_tps, transition, Action, Config, Event, Side, Stage, Window,
};
use prometheus_parse::Scrape;
use vstd::prelude::*;

verus! {

/// What the collaborators of one run answer. An answer that the run never
/// asks for plays no part.
pub struct World<S> {
    /// What the node identity evaluator returns.
    pub node_identity: Result<Vec<Finding>, String>,
    /// What the baseline's source returns for its system information.
    pub baseline_system_information: Result<S, String>,
    /// What the target's source returns for its system information.
    pub target_system_information: Result<S, String>,
    /// What the baseline's source returns for its metrics the first time.
    pub first_baseline_metrics: Result<Vec<String>, String>,
    /// What the target's source returns for its metrics the first time.
    pub first_target_metrics: Result<Vec<String>, String>,
    /// What the parser makes of the first round.
    pub first_snapshots: Result<(Scrape, Scrape), std::io::Error>,
    /// What the clock shows when the first round is over, in nanoseconds.
    pub window_opened_at: u64,
    /// What the Tps evaluator returns.
    pub tps: Result<Vec<Finding>, String>,
    /// What the clock shows when the Tps evaluator is done, in nanoseconds.
    pub tps_done_at: u64,
    /// What the baseline's source returns for its metrics the second time.
    pub second_baseline_metrics: Result<Vec<String>, String>,
    /// What the target's source returns for its metrics the second time.
    pub second_target_metrics: Result<Vec<String>, String>,
    /// What the parser makes of the second round.
    pub second_snapshots: Result<(Scrape, Scrape), std::io::Error>,
    /// What the configured evaluator at each index returns.
    pub evaluations: Seq<Result<Vec<Finding>, String>>,
}

/// What the evaluators from `from` on lead to, run in their order on top of
/// `findings`: a Tps evaluator is passed over, and the first failure ends the
/// run.
pub open spec fn evaluate_from(
    kinds: Seq<EvaluatorKind>,
    evaluations: Seq<Result<Vec<Finding>, String>>,
    findings: Seq<Finding>,
    from: int,
) -> Result<Seq<Finding>, RunnerError>
    decreases kinds.len() - from,
{
    if from < 0 || from >= kinds.len() {
        Ok(findings)
    } else if kinds[from] == EvaluatorKind::Tps {
        evaluate_from(kinds, evaluations, findings, from + 1)
    } else {
        match evaluations[from] {
            Ok(found) => evaluate_from(kinds, evaluations, findings + found@, from + 1),
            Err(message) => Err(failure_of(kinds[from], message)),
        }
    }
}

/// How a run ends whose second metrics round is still to be fetched.
pub open spec fn expected_after_window<S>(
    config: Config,
    world: World<S>,
    findings: Seq<Finding>,
) -> Result<Seq<Finding>, RunnerError> {
    match world.second_baseline_metrics {
        Err(message) => Err(RunnerError::MetricCollectorError(message)),
        Ok(_) => match world.second_target_metrics {
            Err(message) => Err(RunnerError::MetricCollectorError(message)),
            Ok(_) => match world.second_snapshots {
                Err(error) => Err(RunnerError::ParseMetricsError(error)),
                Ok(_) => evaluate_from(config.kinds, world.evaluations, findings, 0),
            },
        },
    }
}

/// How a run ends whose first snapshots are taken.
pub open spec fn expected_in_window<S>(
    config: Config,
    world: World<S>,
    findings: Seq<Finding>,
) -> Result<Seq<Finding>, RunnerError> {
    if seek_tps(config.kinds, 0) is Some {
        match world.tps {
            Err(message) => Err(RunnerError::TpsEvaluatorError(message)),
            Ok(found) => expected_after_window(config, world, findings + found@),
        }
    } else {
        expected_after_window(config, world, findings)
    }
}

/// How a run ends whose node identity findings all pass.
pub open spec fn expected_after_identity<S>(
    config: Config,
    world: World<S>,
    findings: Seq<Finding>,
) -> Result<Seq<Finding>, RunnerError> {
    match world.baseline_system_information {
        Err(message) => Err(RunnerError::MetricCollectorError(message)),
        Ok(_) => match world.target_system_information {
            Err(message) => Err(RunnerError::MetricCollectorError(message)),
            Ok(_) => match world.first_baseline_metrics {
                Err(message) => Err(RunnerError::MetricCollectorError(message)),
                Ok(_) => match world.first_target_metrics {
                    Err(message) => Err(RunnerError::MetricCollectorError(message)),
                    Ok(_) => match world.first_snapshots {
                        Err(error) => Err(RunnerError::ParseMetricsError(error)),
                        Ok(_) => expected_in_window(config, world, findings),
                    },
                },
            },
        },
    }
}

/// How a run in `world` ends: with the findings of its summary, or with its
/// failure.
pub open spec fn expected<S>(config: Config, world: World<S>) -> Result<
    Seq<Finding>,
    RunnerError,
> {
    match world.node_identity {
        Err(message) => Err(RunnerError::NodeIdentityEvaluatorError(message)),
        Ok(identity) => if all_pass(identity@) {
            expected_after_identity(config, world, identity@)
        } else {
            Ok(identity@)
        },
    }
}

/// What a run asks for once the evaluators before `from` are done, up to its
/// end.
pub open spec fn asked_of_evaluators(
    kinds: Seq<EvaluatorKind>,
    evaluations: Seq<Result<Vec<Finding>, String>>,
    from: int,
) -> Seq<Action>
    decreases kinds.len() - from,
{
    if from < 0 || from >= kinds.len() {
        seq![Action::Finish]
    } else if kinds[from] == EvaluatorKind::Tps {
        asked_of_evaluators(kinds, evaluations, from + 1)
    } else {
        seq![Action::Evaluate(from as usize, kinds[from])] + (match evaluations[from] {
            Ok(_) => asked_of_evaluators(kinds, evaluations, from + 1),
            Err(_) => seq![Action::Finish],
        })
    }
}

/// What a run asks for once the window is over, up to its end.
pub open spec fn asked_after_window<S>(config: Config, world: World<S>) -> Seq<Action> {
    seq![Action::CollectMetrics(Side::Baseline)] + (match world.second_baseline_metrics {
        Err(_) => seq![Action::Finish],
        Ok(_) => seq![Action::CollectMetrics(Side::Target)] + (match (
            world.second_target_metrics,
            world.second_snapshots,
        ) {
            (Ok(_), Ok(_)) => asked_of_evaluators(config.kinds, world.evaluations, 0),
            _ => seq![Action::Finish],
        }),
    })
}

/// The pause that a run asks for at `now`, if the deadline has not passed.
pub open spec fn asked_of_pause(deadline: int, now: u64) -> Seq<Action> {
    if now >= deadline {
        Seq::empty()
    } else {
        seq![Action::Sleep((deadline - now) as u128)]
    }
}

/// What a run asks for once its first snapshots are taken, up to its end.
pub open spec fn asked_in_window<S>(config: Config, world: World<S>) -> Seq<Action> {
    let deadline = deadline_of(config, world.window_opened_at);
    match seek_tps(config.kinds, 0) {
        Some(index) => seq![Action::Evaluate(index as usize, EvaluatorKind::Tps)] + (
        match world.tps {
            Err(_) => seq![Action::Finish],
            Ok(_) => asked_of_pause(deadline, world.tps_done_at) + asked_after_window(
                config,
                world,
            ),
        }),
        None => asked_of_pause(deadline, world.window_opened_at) + asked_after_window(
            config,
            world,
        ),
    }
}

/// What a run asks for once the node identity findings have all passed, up
/// to its end.
pub open spec fn asked_after_identity<S>(config: Config, world: World<S>) -> Seq<Action> {
    seq![Action::CollectSystemInformation(Side::Baseline)] + (
    match world.baseline_system_information {
        Err(_) => seq![Action::Finish],
        Ok(_) => seq![Action::CollectSystemInformation(Side::Target)] + (
        match world.target_system_information {
            Err(_) => seq![Action::Finish],
            Ok(_) => seq![Action::CollectMetrics(Side::Baseline)] + (
            match world.first_baseline_metrics {
                Err(_) => seq![Action::Finish],
                Ok(_) => seq![Action::CollectMetrics(Side::Target)] + (match (
                    world.first_target_metrics,
                    world.first_snapshots,
                ) {
                    (Ok(_), Ok(_)) => asked_in_window(config, world),
                    _ => seq![Action::Finish],
                }),
            }),
        }),
    })
}

/// All that a run in `world` asks for, in its order, from the node identity
/// to [`Action::Finish`].
pub open spec fn asked<S>(config: Config, world: World<S>) -> Seq<Action> {
    seq![Action::EvaluateNodeIdentity] + (match world.node_identity {
        Ok(identity) if all_pass(identity@) => asked_after_identity(config, world),
        _ => seq![Action::Finish],
    })
}

/// A run with what it has asked for so far, the last action last.
pub struct Trace<S> {
    pub stage: Stage<S>,
    pub findings: Seq<Finding>,
    pub actions: Seq<Action>,
}

/// A run that has just begun.
pub open spec fn begun<S>() -> Trace<S> {
    Trace {
        stage: Stage::NodeIdentity,
        findings: Seq::empty(),
        actions: seq![Action::EvaluateNodeIdentity],
    }
}

/// Whether a run at `stage` is over.
pub open spec fn over<S>(stage: Stage<S>) -> bool {
    stage is Finished || stage is Failed
}

/// The event that answers what a run at `stage` waits for.
pub open spec fn reply<S>(world: World<S>, stage: Stage<S>) -> Event<S> {
    match stage {
        Stage::NodeIdentity => Event::Evaluated(world.node_identity),
        Stage::BaselineSystemInformation => Event::SystemInformation(
            world.baseline_system_information,
        ),
        Stage::TargetSystemInformation { .. } => Event::SystemInformation(
            world.target_system_information,
        ),
        Stage::FirstBaselineMetrics { .. } => Event::Metrics(world.first_baseline_metrics),
        Stage::FirstTargetMetrics { .. } => match world.first_target_metrics {
            Err(message) => Event::Metrics(Err(message)),
            Ok(_) => Event::Snapshots(world.first_snapshots),
        },
        Stage::Tps { .. } => Event::Evaluated(world.tps),
        Stage::SecondBaselineMetrics { .. } => Event::Metrics(world.second_baseline_metrics),
        Stage::SecondTargetMetrics { .. } => match world.second_target_metrics {
            Err(message) => Event::Metrics(Err(message)),
            Ok(_) => Event::Snapshots(world.second_snapshots),
        },
        Stage::Evaluators { index, .. } => Event::Evaluated(world.evaluations[index as int]),
        _ => Event::Woke,
    }
}

/// What the clock shows when a run at `stage` is answered. The time plays a
/// part only when the window opens and when the Tps evaluator is done.
pub open spec fn time_of<S>(world: World<S>, stage: Stage<S>) -> u64 {
    match stage {
        Stage::FirstTargetMetrics { .. } => world.window_opened_at,
        Stage::Tps { .. } => world.tps_done_at,
        _ => 0,
    }
}

/// The run of `trace` after its pending action is answered.
pub open spec fn answered<S>(config: Config, world: World<S>, trace: Trace<S>) -> Trace<S> {
    let next = transition(
        config,
        trace.stage,
        trace.findings,
        reply(world, trace.stage),
        time_of(world, trace.stage),
    );
    Trace { stage: next.stage, findings: next.findings, actions: trace.actions.push(next.action) }
}

/// The run of `trace` after at most `steps` of its actions are answered; it
/// stops earlier when the run is over.
pub open spec fn drive<S>(config: Config, world: World<S>, trace: Trace<S>, steps: nat) -> Trace<S>
    decreases steps,
{
    if steps == 0 || over(trace.stage) {
        trace
    } else {
        drive(config, world, answered(config, world, trace), (steps - 1) as nat)
    }
}

/// Answers enough for any run of a runner with these evaluators to come to
/// its end: one for each fetch, each evaluator and the pause.
pub open spec fn enough(config: Config) -> nat {
    config.kinds.len() + 9
}

/// The whole run in `world`, from its first action to its end.
pub open spec fn run_of<S>(config: Config, world: World<S>) -> Trace<S> {
    drive(config, world, begun(), enough(config))
}

/// How a run of `trace` has ended, if it has.
pub open spec fn outcome_of<S>(trace: Trace<S>) -> Option<Result<Seq<Finding>, RunnerError>> {
    outcome(trace.stage, trace.findings)
}

/// Whether a run in `world` comes to open its window: the node identity
/// findings all pass, and both sides deliver their system information and
/// their first metrics, which the parser accepts.
pub open spec fn opens_window<S>(world: World<S>) -> bool {
    &&& world.node_identity matches Ok(identity) && all_pass(identity@)
    &&& world.baseline_system_information is Ok
    &&& world.target_system_information is Ok
    &&& world.first_baseline_metrics is Ok
    &&& world.first_target_metrics is Ok
    &&& world.first_snapshots is Ok
}

/// Whether a run in `world` comes to ask the target for its metrics a second
/// time: it opens its window, the Tps evaluator does not fail if there is
/// one, and the baseline delivers its metrics again.
pub open spec fn fetches_twice<S>(config: Config, world: World<S>) -> bool {
    &&& opens_window(world)
    &&& seek_tps(config.kinds, 0) is Some ==> world.tps is Ok
    &&& world.second_baseline_metrics is Ok
}

/// Whether every collaborator that a run in `world` asks gives an answer, and
/// the node identity findings all pass.
pub open spec fn succeeds<S>(config: Config, world: World<S>) -> bool {
    &&& world.node_identity matches Ok(identity) && all_pass(identity@)
    &&& world.baseline_system_information is Ok
    &&& world.target_system_information is Ok
    &&& world.first_baseline_metrics is Ok
    &&& world.first_target_metrics is Ok
    &&& world.first_snapshots is Ok
    &&& seek_tps(config.kinds, 0) is Some ==> world.tps is Ok
    &&& world.second_baseline_metrics is Ok
    &&& world.second_target_metrics is Ok
    &&& world.second_snapshots is Ok
    &&& forall|i: int|
        0 <= i < config.kinds.len() && config.kinds[i] != EvaluatorKind::Tps
            ==> (#[trigger] world.evaluations[i]) is Ok
}

/// The findings of the Tps evaluator in a run that comes to its end: none
/// where no Tps evaluator is configured.
pub open spec fn tps_findings<S>(config: Config, world: World<S>) -> Seq<Finding> {
    match (seek_tps(config.kinds, 0), world.tps) {
        (Some(_), Ok(found)) => found@,
        _ => Seq::empty(),
    }
}

/// The findings of the evaluators from `from` on, in their order, without
/// those of a Tps evaluator or of one that failed.
pub open spec fn gathered(
    kinds: Seq<EvaluatorKind>,
    evaluations: Seq<Result<Vec<Finding>, String>>,
    from: int,
) -> Seq<Finding>
    decreases kinds.len() - from,
{
    if from < 0 || from >= kinds.len() {
        Seq::empty()
    } else if kinds[from] == EvaluatorKind::Tps {
        gathered(kinds, evaluations, from + 1)
    } else {
        match evaluations[from] {
            Ok(found) => found@ + gathered(kinds, evaluations, from + 1),
            Err(_) => gathered(kinds, evaluations, from + 1),
        }
    }
}

/// Whether `action` asks for a Tps evaluator to be run.
pub open spec fn asks_for_tps(action: Action) -> bool {
    action matches Action::Evaluate(_, kind) && kind == EvaluatorKind::Tps
}

/// Whether `system` holds what the two sources answered, each on its side.
pub open spec fn holds_system_information<S>(
    world: World<S>,
    system: SystemInformationEvaluatorInput<S>,
) -> bool {
    &&& world.baseline_system_information == Ok::<S, String>(system.baseline_system_information)
    &&& world.target_system_information == Ok::<S, String>(system.target_system_information)
}

/// Whether `window` holds what the sources answered and the first snapshots,
/// each on its side.
pub open spec fn holds_first_round<S>(world: World<S>, window: Window<S>) -> bool {
    &&& holds_system_information(world, window.system)
    &&& world.first_snapshots matches Ok(snapshots)
    &&& snapshots.0 == window.previous_baseline_metrics
    &&& snapshots.1 == window.previous_target_metrics
}

/// Whether a run at `stage` holds what it was answered in `world`, and
/// nothing else: the system information and the snapshots of each side on
/// that side, the first round as the previous one and the second as the
/// latest, and as the evaluator that it waits for one that is configured and
/// is no Tps evaluator.
pub open spec fn holds_what_was_answered<S>(
    config: Config,
    world: World<S>,
    stage: Stage<S>,
) -> bool {
    match stage {
        Stage::TargetSystemInformation { baseline } => world.baseline_system_information == Ok::<
            S,
            String,
        >(baseline),
        Stage::FirstBaselineMetrics { system } => holds_system_information(world, system),
        Stage::FirstTargetMetrics { system, .. } => holds_system_information(world, system),
        Stage::Tps { window, deadline } => holds_first_round(world, window) && deadline
            == deadline_of(config, world.window_opened_at),
        Stage::Waiting { window } => holds_first_round(world, window),
        Stage::SecondBaselineMetrics { window } => holds_first_round(world, window),
        Stage::SecondTargetMetrics { window, .. } => holds_first_round(world, window),
        Stage::Evaluators { system, metrics, index, kind } => {
            &&& holds_system_information(world, system)
            &&& world.first_snapshots matches Ok(first)
            &&& world.second_snapshots matches Ok(second)
            &&& metrics == (MetricsEvaluatorInput {
                previous_baseline_metrics: first.0,
                previous_target_metrics: first.1,
                latest_baseline_metrics: second.0,
                latest_target_metrics: second.1,
            })
            &&& index < config.kinds.len()
            &&& config.kinds[index as int] == kind
            &&& kind != EvaluatorKind::Tps
        },
        _ => true,
    }
}

/// `config` with a Tps evaluator put in at `place`, before the evaluator that
/// stood there.
pub open spec fn with_tps_at(config: Config, place: int) -> Config {
    Config { kinds: config.kinds.insert(place, EvaluatorKind::Tps), ..config }
}

/// `world` for a runner with one more evaluator at `place`, which would
/// answer `answer` if it were asked there.
pub open spec fn with_answer_at<S>(
    world: World<S>,
    place: int,
    answer: Result<Vec<Finding>, String>,
) -> World<S> {
    World { evaluations: world.evaluations.insert(place, answer), ..world }
}

} // verus!
