//! The runner: what an evaluation is configured with, and its steps.

use crate::error::RunnerError;
use crate::evaluator::{
    evaluator_failure, kinds_of, DirectEvaluatorInput, EvaluatorKind, EvaluatorType,
    MetricsEvaluatorInput, SystemInformationEvaluatorInput,
};
use crate::finding::{all_passing, Finding};
use crate::metrics::parse_round;
use crate::run::{
    admits, awaits_parsing, dispatch, failed, open_window, pause, seek_other, seek_tps,
    transition, Action, Config, Event, Progress, Run, Side, Stage, Window, NANOS_PER_SEC,
};
use prometheus_parse::Scrape;
use vstd::pervasive::unreached;
use vstd::prelude::*;

verus! {

/// The delay between the two metrics rounds when none is configured, in
/// seconds.
pub const DEFAULT_METRICS_FETCH_DELAY_SECS: u64 = 5;

/// The settings of a [`BlockingRunner`].
#[derive(Clone, Copy, Debug, PartialEq, Eq, Structural)]
pub struct BlockingRunnerArgs {
    /// The delay between the two metrics rounds, in seconds.
    pub metrics_fetch_delay_secs: u64,
}

impl Default for BlockingRunnerArgs {
    fn default() -> (args: Self)
        ensures
            args.metrics_fetch_delay_secs == DEFAULT_METRICS_FETCH_DELAY_SECS,
    {
        BlockingRunnerArgs { metrics_fetch_delay_secs: DEFAULT_METRICS_FETCH_DELAY_SECS }
    }
}

/// Evaluates one target node at a time against a baseline node that is fixed
/// when the runner is made: it fetches metrics once, waits, and fetches them
/// again. The runner holds its collaborators and calls none of them: `M` is
/// the baseline's source, `N` what is known of the baseline node, `IE` the
/// node identity evaluator.
#[derive(Debug)]
pub struct BlockingRunner<M, N, IE, ME, SE, TE, LE> {
    args: BlockingRunnerArgs,
    baseline_node_information: N,
    baseline_metric_collector: M,
    node_identity_evaluator: IE,
    evaluators: Vec<EvaluatorType<ME, SE, TE, LE>>,
}

impl<M, N, IE, ME, SE, TE, LE> View for BlockingRunner<M, N, IE, ME, SE, TE, LE> {
    type V = Config;

    closed spec fn view(&self) -> Config {
        Config {
            delay_secs: self.args.metrics_fetch_delay_secs,
            kinds: kinds_of(self.evaluators@),
        }
    }
}

/// The stage, the findings and the action of a step, taken together.
pub open spec fn progress_of<S, N, A>(step: (Run<S, N, A>, Action)) -> Progress<S> {
    Progress { stage: step.0.stage, findings: step.0.findings@, action: step.1 }
}

/// A run after an event, as it is computed: the stage and the findings of the
/// run, and what it asks for.
struct Turn<S> {
    stage: Stage<S>,
    findings: Vec<Finding>,
    action: Action,
}

impl<S> View for Turn<S> {
    type V = Progress<S>;

    closed spec fn view(&self) -> Progress<S> {
        Progress { stage: self.stage, findings: self.findings@, action: self.action }
    }
}

impl<M, N, IE, ME, SE, TE, LE> BlockingRunner<M, N, IE, ME, SE, TE, LE> {
    /// The settings that the runner was made with.
    pub closed spec fn args_of(&self) -> BlockingRunnerArgs {
        self.args
    }

    /// What is known of the baseline node.
    pub closed spec fn baseline_node_information_of(&self) -> N {
        self.baseline_node_information
    }

    /// The baseline's source.
    pub closed spec fn baseline_metric_collector_of(&self) -> M {
        self.baseline_metric_collector
    }

    /// The node identity evaluator.
    pub closed spec fn node_identity_evaluator_of(&self) -> IE {
        self.node_identity_evaluator
    }

    /// The configured evaluators, in their order.
    pub closed spec fn evaluators_of(&self) -> Vec<EvaluatorType<ME, SE, TE, LE>> {
        self.evaluators
    }

    /// What a run reads of a runner is always well formed.
    pub proof fn view_is_well_formed(&self)
        ensures
            self@.well_formed(),
    {
        assert(self.evaluators@.len() == self.evaluators.len());
    }

    /// Binds a runner to its baseline node, for as long as the runner lives.
    pub fn new(
        args: BlockingRunnerArgs,
        baseline_node_information: N,
        baseline_metric_collector: M,
        node_identity_evaluator: IE,
        evaluators: Vec<EvaluatorType<ME, SE, TE, LE>>,
    ) -> (runner: Self)
        ensures
            runner.args_of() == args,
            runner.baseline_node_information_of() == baseline_node_information,
            runner.baseline_metric_collector_of() == baseline_metric_collector,
            runner.node_identity_evaluator_of() == node_identity_evaluator,
            runner.evaluators_of() == evaluators,
            runner@ == (Config {
                delay_secs: args.metrics_fetch_delay_secs,
                kinds: kinds_of(evaluators@),
            }),
            runner@.well_formed(),
    {
        assert(evaluators@.len() == evaluators.len());
        Self {
            args,
            baseline_node_information,
            baseline_metric_collector,
            node_identity_evaluator,
            evaluators,
        }
    }

    /// The settings that the runner was made with.
    #[verifier::when_used_as_spec(args_of)]
    pub fn args(&self) -> (args: BlockingRunnerArgs)
        ensures
            args == self.args_of(),
            args.metrics_fetch_delay_secs == self@.delay_secs,
    {
        self.args
    }

    /// What is known of the baseline node.
    pub fn baseline_node_information(&self) -> (information: &N)
        ensures
            *information == self.baseline_node_information_of(),
    {
        &self.baseline_node_information
    }

    /// The baseline's source.
    pub fn baseline_metric_collector(&self) -> (collector: &M)
        ensures
            *collector == self.baseline_metric_collector_of(),
    {
        &self.baseline_metric_collector
    }

    /// The node identity evaluator.
    pub fn node_identity_evaluator(&self) -> (evaluator: &IE)
        ensures
            *evaluator == self.node_identity_evaluator_of(),
    {
        &self.node_identity_evaluator
    }

    /// The configured evaluators, in their order.
    pub fn evaluators(&self) -> (evaluators: &Vec<EvaluatorType<ME, SE, TE, LE>>)
        ensures
            *evaluators == self.evaluators_of(),
            kinds_of(evaluators@) == self@.kinds,
    {
        &self.evaluators
    }

    /// What the node identity, Tps and latency evaluators are given in a run
    /// on the node at `target_node_address`.
    pub fn direct_evaluator_input<'a, A>(&'a self, target_node_address: &'a A) -> (input:
        DirectEvaluatorInput<'a, N, A>)
        ensures
            *input.baseline_node_information == self.baseline_node_information_of(),
            input.target_node_address == target_node_address,
    {
        DirectEvaluatorInput {
            baseline_node_information: &self.baseline_node_information,
            target_node_address,
        }
    }

    /// Starts a run on the node at `target_node_address`: the direct input is
    /// put together, and the node identity comes first, before anything is
    /// fetched.
    pub fn begin<'a, S, A>(&'a self, target_node_address: &'a A) -> (step: (
        Run<'a, S, N, A>,
        Action,
    ))
        ensures
            *step.0.direct.baseline_node_information == self.baseline_node_information_of(),
            step.0.direct.target_node_address == target_node_address,
            step.0.stage == Stage::<S>::NodeIdentity,
            step.0.findings@ == Seq::<Finding>::empty(),
            step.1 == Action::EvaluateNodeIdentity,
    {
        (
            Run {
                direct: self.direct_evaluator_input(target_node_address),
                stage: Stage::NodeIdentity,
                findings: Vec::new(),
            },
            Action::EvaluateNodeIdentity,
        )
    }

    /// The first Tps evaluator of the configured ones.
    fn find_tps(&self) -> (found: Option<usize>)
        ensures
            match found {
                Some(index) => seek_tps(self@.kinds, 0) == Some(index as int),
                None => seek_tps(self@.kinds, 0) is None,
            },
    {
        let mut i: usize = 0;
        while i < self.evaluators.len()
            invariant
                i <= self.evaluators.len(),
                seek_tps(self@.kinds, 0) == seek_tps(self@.kinds, i as int),
            decreases self.evaluators.len() - i,
        {
            match self.evaluators[i].kind() {
                EvaluatorKind::Tps => {
                    return Some(i);
                },
                _ => {},
            }
            i = i + 1;
        }
        None
    }

    /// The first evaluator from `from` on that is no Tps evaluator, with its
    /// kind.
    fn find_other(&self, from: usize) -> (found: Option<(usize, EvaluatorKind)>)
        ensures
            match found {
                Some(at) => seek_other(self@.kinds, from as int) == Some(at.0 as int) && at.0
                    < self@.kinds.len() && self@.kinds[at.0 as int] == at.1,
                None => seek_other(self@.kinds, from as int) is None,
            },
    {
        let mut i: usize = from;
        while i < self.evaluators.len()
            invariant
                from <= i,
                seek_other(self@.kinds, from as int) == seek_other(self@.kinds, i as int),
            decreases self.evaluators.len() - i,
        {
            let kind = self.evaluators[i].kind();
            match kind {
                EvaluatorKind::Tps => {},
                _ => {
                    return Some((i, kind));
                },
            }
            i = i + 1;
        }
        None
    }

    /// Pauses until the deadline, or goes on to the second round at once.
    fn pause<S>(window: Window<S>, findings: Vec<Finding>, deadline: u128, now: u64) -> (turn:
        Turn<S>)
        ensures
            turn@ == pause(window, findings@, deadline as int, now),
    {
        if now as u128 >= deadline {
            Turn {
                stage: Stage::SecondBaselineMetrics { window },
                findings,
                action: Action::CollectMetrics(Side::Baseline),
            }
        } else {
            Turn {
                stage: Stage::Waiting { window },
                findings,
                action: Action::Sleep(deadline - now as u128),
            }
        }
    }

    /// Opens the window at `now`, and runs the Tps evaluator in it if there is
    /// one.
    fn open_window<S>(&self, window: Window<S>, findings: Vec<Finding>, now: u64) -> (turn:
        Turn<S>)
        ensures
            turn@ == open_window(self@, window, findings@, now),
    {
        let deadline: u128 = now as u128 + self.args.metrics_fetch_delay_secs as u128
            * NANOS_PER_SEC;
        match self.find_tps() {
            Some(index) => Turn {
                stage: Stage::Tps { window, deadline },
                findings,
                action: Action::Evaluate(index, EvaluatorKind::Tps),
            },
            None => Self::pause(window, findings, deadline, now),
        }
    }

    /// Runs the next evaluator from `from` on that is no Tps evaluator, or
    /// ends the run.
    fn dispatch<S>(
        &self,
        system: SystemInformationEvaluatorInput<S>,
        metrics: MetricsEvaluatorInput,
        findings: Vec<Finding>,
        from: usize,
    ) -> (turn: Turn<S>)
        ensures
            turn@ == dispatch(self@, system, metrics, findings@, from as int),
    {
        match self.find_other(from) {
            Some((index, kind)) => Turn {
                stage: Stage::Evaluators { system, metrics, index, kind },
                findings,
                action: Action::Evaluate(index, kind),
            },
            None => Turn { stage: Stage::Finished, findings, action: Action::Finish },
        }
    }

    /// The findings so far with those that were just made behind them.
    fn gather(findings: Vec<Finding>, found: Vec<Finding>) -> (all: Vec<Finding>)
        ensures
            all@ == findings@ + found@,
    {
        let mut all = findings;
        let mut found = found;
        all.append(&mut found);
        all
    }

    /// Ends the run without a summary.
    fn fail<S>(error: RunnerError) -> (turn: Turn<S>)
        ensures
            turn@ == failed::<S>(error),
    {
        Turn { stage: Stage::Failed(error), findings: Vec::new(), action: Action::Finish }
    }

    /// The first metrics round is over, and parsed.
    fn first_round<S>(
        &self,
        system: SystemInformationEvaluatorInput<S>,
        findings: Vec<Finding>,
        parsed: Result<(Scrape, Scrape), std::io::Error>,
        now: u64,
    ) -> (turn: Turn<S>)
        ensures
            turn@ == (match parsed {
                Ok(snapshots) => open_window(
                    self@,
                    Window {
                        system,
                        previous_baseline_metrics: snapshots.0,
                        previous_target_metrics: snapshots.1,
                    },
                    findings@,
                    now,
                ),
                Err(error) => failed(RunnerError::ParseMetricsError(error)),
            }),
    {
        match parsed {
            Ok(snapshots) => self.open_window(
                Window {
                    system,
                    previous_baseline_metrics: snapshots.0,
                    previous_target_metrics: snapshots.1,
                },
                findings,
                now,
            ),
            Err(error) => Self::fail(RunnerError::ParseMetricsError(error)),
        }
    }

    /// The second metrics round is over, and parsed.
    fn second_round<S>(
        &self,
        window: Window<S>,
        findings: Vec<Finding>,
        parsed: Result<(Scrape, Scrape), std::io::Error>,
    ) -> (turn: Turn<S>)
        ensures
            turn@ == (match parsed {
                Ok(snapshots) => dispatch(
                    self@,
                    window.system,
                    MetricsEvaluatorInput {
                        previous_baseline_metrics: window.previous_baseline_metrics,
                        previous_target_metrics: window.previous_target_metrics,
                        latest_baseline_metrics: snapshots.0,
                        latest_target_metrics: snapshots.1,
                    },
                    findings@,
                    0,
                ),
                Err(error) => failed(RunnerError::ParseMetricsError(error)),
            }),
    {
        match parsed {
            Ok(snapshots) => self.dispatch(
                window.system,
                MetricsEvaluatorInput {
                    previous_baseline_metrics: window.previous_baseline_metrics,
                    previous_target_metrics: window.previous_target_metrics,
                    latest_baseline_metrics: snapshots.0,
                    latest_target_metrics: snapshots.1,
                },
                findings,
                0,
            ),
            Err(error) => Self::fail(RunnerError::ParseMetricsError(error)),
        }
    }

    /// What follows `stage` and `findings` on an event that needs no parsing.
    fn turn<S>(&self, stage: Stage<S>, findings: Vec<Finding>, event: Event<S>, now: u64) -> (turn:
        Turn<S>)
        requires
            admits(stage, event),
            !awaits_parsing(stage, event),
        ensures
            turn@ == transition(self@, stage, findings@, event, now),
    {
        match event {
            Event::Evaluated(Ok(found)) => match stage {
                Stage::NodeIdentity => {
                    let passed = all_passing(&found);
                    let findings = Self::gather(findings, found);
                    if passed {
                        Turn {
                            stage: Stage::BaselineSystemInformation,
                            findings,
                            action: Action::CollectSystemInformation(Side::Baseline),
                        }
                    } else {
                        Turn { stage: Stage::Finished, findings, action: Action::Finish }
                    }
                },
                Stage::Tps { window, deadline } => Self::pause(
                    window,
                    Self::gather(findings, found),
                    deadline,
                    now,
                ),
                Stage::Evaluators { system, metrics, index, kind } => {
                    let findings = Self::gather(findings, found);
                    if index < self.evaluators.len() {
                        self.dispatch(system, metrics, findings, index + 1)
                    } else {
                        Turn { stage: Stage::Finished, findings, action: Action::Finish }
                    }
                },
                _ => unreached(),
            },
            Event::Evaluated(Err(message)) => match stage {
                Stage::NodeIdentity => Self::fail(RunnerError::NodeIdentityEvaluatorError(message)),
                Stage::Tps { .. } => Self::fail(RunnerError::TpsEvaluatorError(message)),
                Stage::Evaluators { kind, .. } => Self::fail(evaluator_failure(kind, message)),
                _ => unreached(),
            },
            Event::SystemInformation(Ok(information)) => match stage {
                Stage::BaselineSystemInformation => Turn {
                    stage: Stage::TargetSystemInformation { baseline: information },
                    findings,
                    action: Action::CollectSystemInformation(Side::Target),
                },
                Stage::TargetSystemInformation { baseline } => Turn {
                    stage: Stage::FirstBaselineMetrics {
                        system: SystemInformationEvaluatorInput {
                            baseline_system_information: baseline,
                            target_system_information: information,
                        },
                    },
                    findings,
                    action: Action::CollectMetrics(Side::Baseline),
                },
                _ => unreached(),
            },
            Event::Metrics(Ok(baseline_lines)) => match stage {
                Stage::FirstBaselineMetrics { system } => Turn {
                    stage: Stage::FirstTargetMetrics { system, baseline_lines },
                    findings,
                    action: Action::CollectMetrics(Side::Target),
                },
                Stage::SecondBaselineMetrics { window } => Turn {
                    stage: Stage::SecondTargetMetrics { window, baseline_lines },
                    findings,
                    action: Action::CollectMetrics(Side::Target),
                },
                _ => unreached(),
            },
            Event::Snapshots(parsed) => match stage {
                Stage::FirstTargetMetrics { system, .. } => self.first_round(
                    system,
                    findings,
                    parsed,
                    now,
                ),
                Stage::SecondTargetMetrics { window, .. } => self.second_round(
                    window,
                    findings,
                    parsed,
                ),
                _ => unreached(),
            },
            Event::Woke => match stage {
                Stage::Waiting { window } => Turn {
                    stage: Stage::SecondBaselineMetrics { window },
                    findings,
                    action: Action::CollectMetrics(Side::Baseline),
                },
                _ => unreached(),
            },
            Event::SystemInformation(Err(message)) => Self::fail(
                RunnerError::MetricCollectorError(message),
            ),
            Event::Metrics(Err(message)) => Self::fail(RunnerError::MetricCollectorError(message)),
        }
    }

    /// Takes a run one step on, from an event that needs no parsing: `event`
    /// is the outcome of what the run asked for last, and `now` what the
    /// caller's clock shows, in nanoseconds. The clock may start anywhere; it
    /// is read to time the pause between the two metrics rounds.
    pub fn advance<'a, S, A>(&self, run: Run<'a, S, N, A>, event: Event<S>, now: u64) -> (step: (
        Run<'a, S, N, A>,
        Action,
    ))
        requires
            admits(run.stage, event),
            !awaits_parsing(run.stage, event),
        ensures
            step.0.direct == run.direct,
            progress_of(step) == transition(self@, run.stage, run.findings@, event, now),
    {
        let Run { direct, stage, findings } = run;
        let turn = self.turn(stage, findings, event, now);
        (Run { direct, stage: turn.stage, findings: turn.findings }, turn.action)
    }

    /// Takes a run one step on: `event` is the outcome of what the run asked
    /// for last, and `now` what the caller's clock shows, in nanoseconds.
    /// Where `event` ends a metrics round, the two responses of the round are
    /// parsed first, and the run goes on as [`BlockingRunner::advance`] does
    /// from the two snapshots that the parser made of them.
    pub fn step<'a, S, A>(&self, run: Run<'a, S, N, A>, event: Event<S>, now: u64) -> (step: (
        Run<'a, S, N, A>,
        Action,
    ))
        requires
            admits(run.stage, event),
        ensures
            step.0.direct == run.direct,
            !awaits_parsing(run.stage, event) ==> progress_of(step) == transition(
                self@,
                run.stage,
                run.findings@,
                event,
                now,
            ),
            awaits_parsing(run.stage, event) ==> exists|snapshots: (Scrape, Scrape)|
                progress_of(step) == #[trigger] transition(
                    self@,
                    run.stage,
                    run.findings@,
                    Event::Snapshots(Ok(snapshots)),
                    now,
                ),
    {
        let ghost before = run;
        let Run { direct, stage, findings } = run;
        let turn = match event {
            Event::Metrics(Ok(target_lines)) => match stage {
                Stage::FirstTargetMetrics { system, baseline_lines } => {
                    let parsed = parse_round(baseline_lines, target_lines);
                    let ghost outcome = parsed;
                    let turn = self.first_round(system, findings, parsed, now);
                    assert(turn@ == transition(
                        self@,
                        before.stage,
                        before.findings@,
                        Event::Snapshots(Ok(outcome->Ok_0)),
                        now,
                    ));
                    turn
                },
                Stage::SecondTargetMetrics { window, baseline_lines } => {
                    let parsed = parse_round(baseline_lines, target_lines);
                    let ghost outcome = parsed;
                    let turn = self.second_round(window, findings, parsed);
                    assert(turn@ == transition(
                        self@,
                        before.stage,
                        before.findings@,
                        Event::Snapshots(Ok(outcome->Ok_0)),
                        now,
                    ));
                    turn
                },
                other => self.turn(other, findings, Event::Metrics(Ok(target_lines)), now),
            },
            other => self.turn(stage, findings, other, now),
        };
        (Run { direct, stage: turn.stage, findings: turn.findings }, turn.action)
    }
}

} // verus!
