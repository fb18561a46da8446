//! One evaluation of a target node, as a state machine.
//!
//! A run asks for one [`Action`] at a time and goes on when it is told the
//! outcome, as an [`Event`]. [`transition`] is the whole protocol: which stage
//! follows which, what is asked for next, and how a run ends.

use crate::error::RunnerError;
use crate::evaluator::{
    failure_of, DirectEvaluatorInput, EvaluatorKind, MetricsEvaluatorInput,
    SystemInformationEvaluatorInput,
};
use crate::finding::{all_pass, EvaluationSummary, Finding};
use prometheus_parse::Scrape;
use vstd::prelude::*;

verus! {

/// Nanoseconds in a second: the delay is configured in seconds, the clock is
/// read in nanoseconds.
pub const NANOS_PER_SEC: u128 = 1_000_000_000;

/// The two nodes of an evaluation.
#[derive(Clone, Copy, Debug, PartialEq, Eq, Structural)]
pub enum Side {
    /// The trusted node that a runner is bound to.
    Baseline,
    /// The node under evaluation.
    Target,
}

/// What a run asks its caller to do next.
#[derive(Clone, Copy, Debug, PartialEq, Eq, Structural)]
pub enum Action {
    /// Run the node identity evaluator on the direct input.
    EvaluateNodeIdentity,
    /// Fetch the system information of one side.
    CollectSystemInformation(Side),
    /// Fetch the metrics of one side.
    CollectMetrics(Side),
    /// Run the configured evaluator at this index, which is of this kind, on
    /// the input that its kind takes.
    Evaluate(usize, EvaluatorKind),
    /// Pause for this many nanoseconds.
    Sleep(u128),
    /// Nothing: the run is over, and [`Run::into_outcome`] gives its outcome.
    Finish,
}

/// The outcome of what a run asked for. A failure carries the collaborator's
/// message.
#[derive(Debug)]
pub enum Event<S> {
    /// An evaluator was run.
    Evaluated(Result<Vec<Finding>, String>),
    /// System information was fetched.
    SystemInformation(Result<S, String>),
    /// Metrics were fetched.
    Metrics(Result<Vec<String>, String>),
    /// The target's metrics were fetched, which ends a round, and the two
    /// responses of the round were parsed, the baseline's first.
    Snapshots(Result<(Scrape, Scrape), std::io::Error>),
    /// The pause is over.
    Woke,
}

/// What a run holds while it waits for the second metrics round.
#[derive(Debug)]
pub struct Window<S> {
    pub system: SystemInformationEvaluatorInput<S>,
    pub previous_baseline_metrics: Scrape,
    pub previous_target_metrics: Scrape,
}

/// Where a run stands: what it waits for, and what it has gathered for the
/// evaluators.
#[derive(Debug)]
pub enum Stage<S> {
    /// Waits for the node identity evaluator.
    NodeIdentity,
    /// Waits for the baseline's system information.
    BaselineSystemInformation,
    /// Waits for the target's system information.
    TargetSystemInformation { baseline: S },
    /// Waits for the baseline's metrics, first round.
    FirstBaselineMetrics { system: SystemInformationEvaluatorInput<S> },
    /// Waits for the target's metrics, first round.
    FirstTargetMetrics { system: SystemInformationEvaluatorInput<S>, baseline_lines: Vec<String> },
    /// Waits for the Tps evaluator, while the window is open; the second round
    /// is due at `deadline`, in nanoseconds.
    Tps { window: Window<S>, deadline: u128 },
    /// Waits for the pause to end.
    Waiting { window: Window<S> },
    /// Waits for the baseline's metrics, second round.
    SecondBaselineMetrics { window: Window<S> },
    /// Waits for the target's metrics, second round.
    SecondTargetMetrics { window: Window<S>, baseline_lines: Vec<String> },
    /// Waits for the configured evaluator at `index`, which is of kind `kind`.
    Evaluators {
        system: SystemInformationEvaluatorInput<S>,
        metrics: MetricsEvaluatorInput,
        index: usize,
        kind: EvaluatorKind,
    },
    /// Over, with a summary of the findings.
    Finished,
    /// Over, without a summary.
    Failed(RunnerError),
}

/// What a run reads of its runner.
pub struct Config {
    /// The delay between the two metrics rounds, in seconds.
    pub delay_secs: u64,
    /// The kinds of the configured evaluators, in their order.
    pub kinds: Seq<EvaluatorKind>,
}

impl Config {
    /// A runner holds its evaluators in a vector, so every index fits in a
    /// machine word.
    pub open spec fn well_formed(self) -> bool {
        self.kinds.len() <= usize::MAX
    }
}

/// A run after an event: its stage, its findings so far, and what it asks for.
pub struct Progress<S> {
    pub stage: Stage<S>,
    pub findings: Seq<Finding>,
    pub action: Action,
}

/// The first index from `from` on at which a Tps evaluator is configured.
pub open spec fn seek_tps(kinds: Seq<EvaluatorKind>, from: int) -> Option<int>
    decreases kinds.len() - from,
{
    if from < 0 || from >= kinds.len() {
        None
    } else if kinds[from] == EvaluatorKind::Tps {
        Some(from)
    } else {
        seek_tps(kinds, from + 1)
    }
}

/// The first index from `from` on at which an evaluator other than Tps is
/// configured.
pub open spec fn seek_other(kinds: Seq<EvaluatorKind>, from: int) -> Option<int>
    decreases kinds.len() - from,
{
    if from < 0 || from >= kinds.len() {
        None
    } else if kinds[from] != EvaluatorKind::Tps {
        Some(from)
    } else {
        seek_other(kinds, from + 1)
    }
}

/// When the second metrics round is due, for a window opened at `now`.
pub open spec fn deadline_of(config: Config, now: u64) -> int {
    now + config.delay_secs * NANOS_PER_SEC
}

/// A run that goes on.
pub open spec fn proceed<S>(stage: Stage<S>, findings: Seq<Finding>, action: Action) -> Progress<
    S,
> {
    Progress { stage, findings, action }
}

/// A run that ends with a summary of `findings`.
pub open spec fn finished<S>(findings: Seq<Finding>) -> Progress<S> {
    Progress { stage: Stage::Finished, findings, action: Action::Finish }
}

/// A run that ends with `error`. Its findings are dropped.
pub open spec fn failed<S>(error: RunnerError) -> Progress<S> {
    Progress { stage: Stage::Failed(error), findings: Seq::empty(), action: Action::Finish }
}

/// The first snapshots are taken and the Tps evaluator, if any, is done: pause
/// until the deadline, or fetch at once when it has passed.
pub open spec fn pause<S>(
    window: Window<S>,
    findings: Seq<Finding>,
    deadline: int,
    now: u64,
) -> Progress<S> {
    if now >= deadline {
        proceed(
            Stage::SecondBaselineMetrics { window },
            findings,
            Action::CollectMetrics(Side::Baseline),
        )
    } else {
        proceed(Stage::Waiting { window }, findings, Action::Sleep((deadline - now) as u128))
    }
}

/// The first snapshots are taken at `now`: the window opens, and the Tps
/// evaluator runs in it if one is configured.
pub open spec fn open_window<S>(
    config: Config,
    window: Window<S>,
    findings: Seq<Finding>,
    now: u64,
) -> Progress<S> {
    let deadline = deadline_of(config, now);
    match seek_tps(config.kinds, 0) {
        Some(index) => proceed(
            Stage::Tps { window, deadline: deadline as u128 },
            findings,
            Action::Evaluate(index as usize, EvaluatorKind::Tps),
        ),
        None => pause(window, findings, deadline, now),
    }
}

/// The evaluators before `from` are done: run the next that is no Tps
/// evaluator, or end the run with a summary.
pub open spec fn dispatch<S>(
    config: Config,
    system: SystemInformationEvaluatorInput<S>,
    metrics: MetricsEvaluatorInput,
    findings: Seq<Finding>,
    from: int,
) -> Progress<S> {
    match seek_other(config.kinds, from) {
        Some(index) => proceed(
            Stage::Evaluators {
                system,
                metrics,
                index: index as usize,
                kind: config.kinds[index],
            },
            findings,
            Action::Evaluate(index as usize, config.kinds[index]),
        ),
        None => finished(findings),
    }
}

/// Whether a run at `stage` can be told of `event`.
pub open spec fn admits<S>(stage: Stage<S>, event: Event<S>) -> bool {
    match stage {
        Stage::NodeIdentity | Stage::Tps { .. } | Stage::Evaluators { .. } => event is Evaluated,
        Stage::BaselineSystemInformation | Stage::TargetSystemInformation { .. } => event
            is SystemInformation,
        Stage::FirstBaselineMetrics { .. } | Stage::SecondBaselineMetrics { .. } => event
            is Metrics,
        Stage::FirstTargetMetrics { .. } | Stage::SecondTargetMetrics { .. } => event is Metrics
            || event is Snapshots,
        Stage::Waiting { .. } => event is Woke,
        Stage::Finished | Stage::Failed(_) => false,
    }
}

/// Whether `event` tells of a collaborator that failed, or of lines that the
/// parser refused.
pub open spec fn is_failure<S>(event: Event<S>) -> bool {
    match event {
        Event::Evaluated(outcome) => outcome is Err,
        Event::SystemInformation(outcome) => outcome is Err,
        Event::Metrics(outcome) => outcome is Err,
        Event::Snapshots(outcome) => outcome is Err,
        Event::Woke => false,
    }
}

/// Whether `event` is a response that ends a metrics round and is still to be
/// parsed.
pub open spec fn awaits_parsing<S>(stage: Stage<S>, event: Event<S>) -> bool {
    (stage is FirstTargetMetrics || stage is SecondTargetMetrics) && event matches Event::Metrics(
        Ok(_),
    )
}

/// The protocol: where a run at `stage` with `findings` stands after `event`,
/// told at the time `now`. It says nothing of an event that the stage does not
/// admit, nor of one that is still to be parsed.
pub open spec fn transition<S>(
    config: Config,
    stage: Stage<S>,
    findings: Seq<Finding>,
    event: Event<S>,
    now: u64,
) -> Progress<S> {
    match (stage, event) {
        (Stage::NodeIdentity, Event::Evaluated(Ok(found))) => if all_pass(found@) {
            proceed(
                Stage::BaselineSystemInformation,
                findings + found@,
                Action::CollectSystemInformation(Side::Baseline),
            )
        } else {
            finished(findings + found@)
        },
        (Stage::NodeIdentity, Event::Evaluated(Err(message))) => failed(
            RunnerError::NodeIdentityEvaluatorError(message),
        ),
        (Stage::BaselineSystemInformation, Event::SystemInformation(Ok(baseline))) => proceed(
            Stage::TargetSystemInformation { baseline },
            findings,
            Action::CollectSystemInformation(Side::Target),
        ),
        (
            Stage::TargetSystemInformation { baseline },
            Event::SystemInformation(Ok(target)),
        ) => proceed(
            Stage::FirstBaselineMetrics {
                system: SystemInformationEvaluatorInput {
                    baseline_system_information: baseline,
                    target_system_information: target,
                },
            },
            findings,
            Action::CollectMetrics(Side::Baseline),
        ),
        (Stage::FirstBaselineMetrics { system }, Event::Metrics(Ok(baseline_lines))) => proceed(
            Stage::FirstTargetMetrics { system, baseline_lines },
            findings,
            Action::CollectMetrics(Side::Target),
        ),
        (
            Stage::FirstTargetMetrics { system, baseline_lines },
            Event::Snapshots(Ok(snapshots)),
        ) => open_window(
            config,
            Window {
                system,
                previous_baseline_metrics: snapshots.0,
                previous_target_metrics: snapshots.1,
            },
            findings,
            now,
        ),
        (Stage::Tps { window, deadline }, Event::Evaluated(Ok(found))) => pause(
            window,
            findings + found@,
            deadline as int,
            now,
        ),
        (Stage::Tps { window, deadline }, Event::Evaluated(Err(message))) => failed(
            RunnerError::TpsEvaluatorError(message),
        ),
        (Stage::Waiting { window }, Event::Woke) => proceed(
            Stage::SecondBaselineMetrics { window },
            findings,
            Action::CollectMetrics(Side::Baseline),
        ),
        (Stage::SecondBaselineMetrics { window }, Event::Metrics(Ok(baseline_lines))) => proceed(
            Stage::SecondTargetMetrics { window, baseline_lines },
            findings,
            Action::CollectMetrics(Side::Target),
        ),
        (
            Stage::SecondTargetMetrics { window, baseline_lines },
            Event::Snapshots(Ok(snapshots)),
        ) => dispatch(
            config,
            window.system,
            MetricsEvaluatorInput {
                previous_baseline_metrics: window.previous_baseline_metrics,
                previous_target_metrics: window.previous_target_metrics,
                latest_baseline_metrics: snapshots.0,
                latest_target_metrics: snapshots.1,
            },
            findings,
            0,
        ),
        (
            Stage::Evaluators { system, metrics, index, kind },
            Event::Evaluated(Ok(found)),
        ) => dispatch(
            config,
            system,
            metrics,
            findings + found@,
            index + 1,
        ),
        (
            Stage::Evaluators { system, metrics, index, kind },
            Event::Evaluated(Err(message)),
        ) => failed(
            failure_of(kind, message),
        ),
        (_, Event::SystemInformation(Err(message))) => failed(
            RunnerError::MetricCollectorError(message),
        ),
        (_, Event::Metrics(Err(message))) => failed(RunnerError::MetricCollectorError(message)),
        (_, Event::Snapshots(Err(error))) => failed(RunnerError::ParseMetricsError(error)),
        _ => arbitrary(),
    }
}

/// The outcome of a run at `stage` with `findings`: none while it is under
/// way, then a summary of all its findings or the failure that ended it.
pub open spec fn outcome<S>(stage: Stage<S>, findings: Seq<Finding>) -> Option<
    Result<Seq<Finding>, RunnerError>,
> {
    match stage {
        Stage::Finished => Some(Ok(findings)),
        Stage::Failed(error) => Some(Err(error)),
        _ => None,
    }
}

/// One evaluation of a target node, under way or over.
#[derive(Debug)]
pub struct Run<'a, S, N, A> {
    /// What the node identity, Tps and latency evaluators are given, put
    /// together when the run began.
    pub direct: DirectEvaluatorInput<'a, N, A>,
    /// Where the run stands.
    pub stage: Stage<S>,
    /// The findings so far, in the order in which they were made.
    pub findings: Vec<Finding>,
}

impl<'a, S, N, A> Run<'a, S, N, A> {
    /// What the node identity, Tps and latency evaluators are given.
    pub fn direct_input(&self) -> (input: &DirectEvaluatorInput<'a, N, A>)
        ensures
            *input == self.direct,
    {
        &self.direct
    }

    /// Whether the run is over.
    pub fn is_over(&self) -> (over: bool)
        ensures
            over == (self.stage is Finished || self.stage is Failed),
            over == outcome(self.stage, self.findings@) is Some,
    {
        match &self.stage {
            Stage::Finished => true,
            Stage::Failed(_) => true,
            _ => false,
        }
    }

    /// Whether the run can be told of `event`.
    pub fn admits(&self, event: &Event<S>) -> (admitted: bool)
        ensures
            admitted == admits(self.stage, *event),
    {
        match &self.stage {
            Stage::NodeIdentity | Stage::Tps { .. } | Stage::Evaluators { .. } => match event {
                Event::Evaluated(_) => true,
                _ => false,
            },
            Stage::BaselineSystemInformation
            | Stage::TargetSystemInformation { .. } => match event {
                Event::SystemInformation(_) => true,
                _ => false,
            },
            Stage::FirstBaselineMetrics { .. }
            | Stage::SecondBaselineMetrics { .. } => match event {
                Event::Metrics(_) => true,
                _ => false,
            },
            Stage::FirstTargetMetrics { .. } | Stage::SecondTargetMetrics { .. } => match event {
                Event::Metrics(_) => true,
                Event::Snapshots(_) => true,
                _ => false,
            },
            Stage::Waiting { .. } => match event {
                Event::Woke => true,
                _ => false,
            },
            Stage::Finished | Stage::Failed(_) => false,
        }
    }

    /// What a metrics evaluator is given, once an evaluator is to be run on it.
    pub fn metrics_input(&self) -> (input: Option<&MetricsEvaluatorInput>)
        ensures
            match self.stage {
                Stage::Evaluators { metrics, .. } => input == Some(&metrics),
                _ => input is None,
            },
    {
        match &self.stage {
            Stage::Evaluators { metrics, .. } => Some(metrics),
            _ => None,
        }
    }

    /// What a system information evaluator is given, once an evaluator is to
    /// be run on it.
    pub fn system_information_input(&self) -> (input: Option<&SystemInformationEvaluatorInput<S>>)
        ensures
            match self.stage {
                Stage::Evaluators { system, .. } => input == Some(&system),
                _ => input is None,
            },
    {
        match &self.stage {
            Stage::Evaluators { system, .. } => Some(system),
            _ => None,
        }
    }

    /// Ends the run: nothing while it is under way, then the summary of all
    /// its findings in the order in which they were made, or its failure.
    pub fn into_outcome(self) -> (ended: Option<Result<EvaluationSummary, RunnerError>>)
        ensures
            match outcome(self.stage, self.findings@) {
                None => ended is None,
                Some(Ok(findings)) => ended matches Some(Ok(summary)) && summary@ == findings,
                Some(Err(error)) => ended == Some(Err::<EvaluationSummary, RunnerError>(error)),
            },
    {
        match self.stage {
            Stage::Finished => Some(Ok(EvaluationSummary::from(self.findings))),
            Stage::Failed(error) => Some(Err(error)),
            _ => None,
        }
    }
}

} // verus!
