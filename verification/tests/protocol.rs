use node_checker::error::RunnerError;
use node_checker::evaluator::{
    DirectEvaluatorInput, EvaluatorKind, EvaluatorType, MetricsEvaluatorInput,
    SystemInformationEvaluatorInput,
};
use node_checker::finding::{EvaluationSummary, Finding};
use node_checker::run::{Action, Event, Run, Side, Stage};
use node_checker::runner::{BlockingRunner, BlockingRunnerArgs};
use prometheus_parse::{Scrape, Value};
use std::cell::RefCell;

const SECOND: u64 = 1_000_000_000;

/// A node as the tests know it: its address is its name.
struct Node {
    identity: String,
}

/// A source that answers from a script and keeps count of what it was asked.
struct Source {
    system_information: Result<String, String>,
    metrics: RefCell<Vec<Result<Vec<String>, String>>>,
    system_information_calls: RefCell<usize>,
    metrics_calls: RefCell<usize>,
}

impl Source {
    fn new(system_information: &str, metrics: Vec<Result<Vec<String>, String>>) -> Source {
        Source {
            system_information: Ok(system_information.to_string()),
            metrics: RefCell::new(metrics),
            system_information_calls: RefCell::new(0),
            metrics_calls: RefCell::new(0),
        }
    }

    fn steady(name: &str, requests: u64) -> Source {
        Source::new(name, vec![Ok(sample(requests)), Ok(sample(requests))])
    }

    fn collect_system_information(&self) -> Result<String, String> {
        *self.system_information_calls.borrow_mut() += 1;
        self.system_information.clone()
    }

    fn collect_metrics(&self) -> Result<Vec<String>, String> {
        *self.metrics_calls.borrow_mut() += 1;
        self.metrics.borrow_mut().remove(0)
    }

    fn calls(&self) -> usize {
        *self.system_information_calls.borrow() + *self.metrics_calls.borrow()
    }
}

type Direct = Box<dyn Fn(&DirectEvaluatorInput<String, Node>) -> Result<Vec<Finding>, String>>;
type OnMetrics = Box<dyn Fn(&MetricsEvaluatorInput) -> Result<Vec<Finding>, String>>;
type OnSystem =
    Box<dyn Fn(&SystemInformationEvaluatorInput<String>) -> Result<Vec<Finding>, String>>;
type Evaluator = EvaluatorType<OnMetrics, OnSystem, Direct, Direct>;
type Runner = BlockingRunner<Source, String, Direct, OnMetrics, OnSystem, Direct, Direct>;

fn finding(score: u8, category: &str, explanation: &str) -> Finding {
    Finding::new(score, category.to_string(), explanation.to_string()).unwrap()
}

fn sample(requests: u64) -> Vec<String> {
    vec!["# TYPE requests counter".to_string(), format!("requests {}", requests)]
}

fn requests(scrape: &Scrape) -> f64 {
    match scrape.samples[0].value {
        Value::Counter(value) => value,
        _ => panic!("requests is a counter"),
    }
}

/// Passes when the target's identity is the baseline's.
fn identity_evaluator() -> Direct {
    Box::new(|input| {
        let same = *input.baseline_node_information == input.target_node_address.identity;
        Ok(vec![finding(if same { 100 } else { 0 }, "identity", "chain and role")])
    })
}

/// Passes when both sides served as many requests in the window.
fn metrics_evaluator() -> Evaluator {
    EvaluatorType::Metrics(Box::new(|input| {
        let baseline =
            requests(&input.latest_baseline_metrics) - requests(&input.previous_baseline_metrics);
        let target =
            requests(&input.latest_target_metrics) - requests(&input.previous_target_metrics);
        let score = if baseline == target { 100 } else { 50 };
        Ok(vec![finding(score, "metrics", &format!("baseline {} target {}", baseline, target))])
    }))
}

fn system_evaluator() -> Evaluator {
    EvaluatorType::SystemInformation(Box::new(|input| {
        let same = input.baseline_system_information == input.target_system_information;
        Ok(vec![finding(
            if same { 100 } else { 10 },
            "system",
            &format!("{} {}", input.baseline_system_information, input.target_system_information),
        )])
    }))
}

fn tps_evaluator() -> Evaluator {
    EvaluatorType::Tps(Box::new(|input| {
        Ok(vec![finding(90, "tps", &input.target_node_address.identity)])
    }))
}

fn latency_evaluator() -> Evaluator {
    EvaluatorType::Latency(Box::new(|input| {
        Ok(vec![
            finding(80, "latency", &input.target_node_address.identity),
            finding(70, "latency", "second probe"),
        ])
    }))
}

fn failing(kind: EvaluatorKind) -> Evaluator {
    match kind {
        EvaluatorKind::Metrics => {
            EvaluatorType::Metrics(Box::new(|_| Err("metrics broke".to_string())))
        }
        EvaluatorKind::SystemInformation => {
            EvaluatorType::SystemInformation(Box::new(|_| Err("system broke".to_string())))
        }
        EvaluatorKind::Tps => EvaluatorType::Tps(Box::new(|_| Err("tps broke".to_string()))),
        EvaluatorKind::Latency => {
            EvaluatorType::Latency(Box::new(|_| Err("latency broke".to_string())))
        }
    }
}

fn runner(delay_secs: u64, baseline: Source, evaluators: Vec<Evaluator>) -> Runner {
    BlockingRunner::new(
        BlockingRunnerArgs { metrics_fetch_delay_secs: delay_secs },
        "X".to_string(),
        baseline,
        identity_evaluator(),
        evaluators,
    )
}

/// What a driven run came to.
struct Driven {
    result: Result<EvaluationSummary, RunnerError>,
    actions: Vec<Action>,
    slept: u128,
}

/// Runs the state machine against scripted sources, on a clock that moves only
/// while the Tps evaluator runs and while the run sleeps.
fn drive(runner: &Runner, target_node: &Node, target: &Source, tps_runtime: u64) -> Driven {
    let mut now: u64 = 7 * SECOND;
    let mut slept: u128 = 0;
    let (mut run, mut action): (Run<String, String, Node>, Action) = runner.begin(target_node);
    let mut actions = vec![action];
    loop {
        let event = match action {
            Action::EvaluateNodeIdentity => {
                Event::Evaluated((runner.node_identity_evaluator())(run.direct_input()))
            }
            Action::CollectSystemInformation(Side::Baseline) => Event::SystemInformation(
                runner.baseline_metric_collector().collect_system_information(),
            ),
            Action::CollectSystemInformation(Side::Target) => {
                Event::SystemInformation(target.collect_system_information())
            }
            Action::CollectMetrics(Side::Baseline) => {
                Event::Metrics(runner.baseline_metric_collector().collect_metrics())
            }
            Action::CollectMetrics(Side::Target) => Event::Metrics(target.collect_metrics()),
            Action::Evaluate(index, kind) => {
                let evaluator = &runner.evaluators()[index];
                assert_eq!(evaluator.kind(), kind);
                Event::Evaluated(match evaluator {
                    EvaluatorType::Metrics(evaluator) => evaluator(run.metrics_input().unwrap()),
                    EvaluatorType::SystemInformation(evaluator) => {
                        evaluator(run.system_information_input().unwrap())
                    }
                    EvaluatorType::Tps(evaluator) => {
                        now += tps_runtime;
                        evaluator(run.direct_input())
                    }
                    EvaluatorType::Latency(evaluator) => evaluator(run.direct_input()),
                })
            }
            Action::Sleep(nanos) => {
                slept += nanos;
                now += nanos as u64;
                Event::Woke
            }
            Action::Finish => break,
        };
        assert!(run.admits(&event));
        let next = runner.step(run, event, now);
        run = next.0;
        action = next.1;
        actions.push(action);
    }
    assert!(run.is_over());
    Driven { result: run.into_outcome().unwrap(), actions, slept }
}

fn node(identity: &str) -> Node {
    Node { identity: identity.to_string() }
}

fn categories(summary: &EvaluationSummary) -> Vec<String> {
    summary.evaluation_results.iter().map(|found| found.category().clone()).collect()
}

#[test]
fn scenario_identical_snapshots_without_tps() {
    let runner = runner(0, Source::steady("linux", 40), vec![metrics_evaluator()]);
    let target = Source::steady("linux", 25);
    let driven = drive(&runner, &node("X"), &target, 0);
    let summary = driven.result.unwrap();
    assert_eq!(
        summary.evaluation_results,
        vec![
            finding(100, "identity", "chain and role"),
            finding(100, "metrics", "baseline 0 target 0"),
        ]
    );
    assert_eq!(driven.slept, 0);
    assert_eq!(
        driven.actions,
        vec![
            Action::EvaluateNodeIdentity,
            Action::CollectSystemInformation(Side::Baseline),
            Action::CollectSystemInformation(Side::Target),
            Action::CollectMetrics(Side::Baseline),
            Action::CollectMetrics(Side::Target),
            Action::CollectMetrics(Side::Baseline),
            Action::CollectMetrics(Side::Target),
            Action::Evaluate(0, EvaluatorKind::Metrics),
            Action::Finish,
        ]
    );
}

#[test]
fn scenario_identity_mismatch_fetches_nothing() {
    let runner = runner(5, Source::steady("linux", 40), vec![metrics_evaluator(), tps_evaluator()]);
    let target = Source::steady("linux", 25);
    let driven = drive(&runner, &node("Y"), &target, 0);
    let summary = driven.result.unwrap();
    assert_eq!(summary.evaluation_results, vec![finding(0, "identity", "chain and role")]);
    assert_eq!(driven.actions, vec![Action::EvaluateNodeIdentity, Action::Finish]);
    assert_eq!(target.calls(), 0);
    assert_eq!(runner.baseline_metric_collector().calls(), 0);
}

#[test]
fn scenario_target_fails_on_the_second_metrics_fetch() {
    let runner = runner(1, Source::steady("linux", 40), vec![metrics_evaluator()]);
    let target = Source::new("linux", vec![Ok(sample(3)), Err("connection reset".to_string())]);
    let driven = drive(&runner, &node("X"), &target, 0);
    assert!(matches!(
        driven.result,
        Err(RunnerError::MetricCollectorError(message)) if message == "connection reset"
    ));
    assert_eq!(*target.metrics_calls.borrow(), 2);
    assert_eq!(driven.actions.last(), Some(&Action::Finish));
    assert!(!driven.actions.iter().any(|action| matches!(action, Action::Evaluate(_, _))));
}

#[test]
fn one_failing_identity_finding_among_passing_ones_ends_the_run() {
    let runner: Runner = BlockingRunner::new(
        BlockingRunnerArgs::default(),
        "X".to_string(),
        Source::steady("linux", 1),
        Box::new(|_: &DirectEvaluatorInput<String, Node>| {
            Ok(vec![
                finding(100, "identity", "chain"),
                finding(99, "identity", "role"),
                finding(100, "identity", "version"),
            ])
        }) as Direct,
        vec![latency_evaluator()],
    );
    let target = Source::steady("linux", 1);
    let driven = drive(&runner, &node("X"), &target, 0);
    assert_eq!(
        driven.result.unwrap().evaluation_results,
        vec![
            finding(100, "identity", "chain"),
            finding(99, "identity", "role"),
            finding(100, "identity", "version"),
        ]
    );
    assert_eq!(driven.actions, vec![Action::EvaluateNodeIdentity, Action::Finish]);
    assert_eq!(target.calls(), 0);
}

#[test]
fn no_identity_findings_at_all_let_the_run_go_on() {
    let runner: Runner = BlockingRunner::new(
        BlockingRunnerArgs { metrics_fetch_delay_secs: 0 },
        "X".to_string(),
        Source::steady("linux", 1),
        Box::new(|_: &DirectEvaluatorInput<String, Node>| Ok(Vec::new())) as Direct,
        Vec::new(),
    );
    let target = Source::steady("linux", 1);
    let driven = drive(&runner, &node("X"), &target, 0);
    assert!(driven.result.unwrap().evaluation_results.is_empty());
    assert_eq!(target.calls(), 3);
}

#[test]
fn a_passing_identity_leads_to_three_calls_of_the_target() {
    let runner = runner(2, Source::steady("linux", 40), vec![system_evaluator()]);
    let target = Source::steady("linux", 25);
    let driven = drive(&runner, &node("X"), &target, 0);
    assert!(driven.result.is_ok());
    assert_eq!(*target.system_information_calls.borrow(), 1);
    assert_eq!(*target.metrics_calls.borrow(), 2);
    assert_eq!(*runner.baseline_metric_collector().system_information_calls.borrow(), 1);
    assert_eq!(*runner.baseline_metric_collector().metrics_calls.borrow(), 2);
}

#[test]
fn a_tps_evaluator_slower_than_the_delay_is_followed_by_no_pause() {
    let runner = runner(5, Source::steady("linux", 40), vec![tps_evaluator()]);
    let target = Source::steady("linux", 25);
    let driven = drive(&runner, &node("X"), &target, 6 * SECOND);
    assert!(driven.result.is_ok());
    assert_eq!(driven.slept, 0);
    assert_eq!(driven.actions[5], Action::Evaluate(0, EvaluatorKind::Tps));
    assert_eq!(driven.actions[6], Action::CollectMetrics(Side::Baseline));
}

#[test]
fn a_tps_evaluator_as_slow_as_the_delay_is_followed_by_no_pause() {
    let runner = runner(5, Source::steady("linux", 40), vec![tps_evaluator()]);
    let target = Source::steady("linux", 25);
    let driven = drive(&runner, &node("X"), &target, 5 * SECOND);
    assert_eq!(driven.slept, 0);
    assert_eq!(driven.actions[6], Action::CollectMetrics(Side::Baseline));
}

#[test]
fn a_tps_evaluator_quicker_than_the_delay_is_followed_by_the_rest_of_it() {
    let runner = runner(5, Source::steady("linux", 40), vec![tps_evaluator()]);
    let target = Source::steady("linux", 25);
    let driven = drive(&runner, &node("X"), &target, 2 * SECOND + 1);
    assert!(driven.result.is_ok());
    assert_eq!(driven.actions[5], Action::Evaluate(0, EvaluatorKind::Tps));
    assert_eq!(driven.actions[6], Action::Sleep(2_999_999_999));
    assert_eq!(driven.actions[7], Action::CollectMetrics(Side::Baseline));
    assert_eq!(driven.slept, 2_999_999_999);
}

#[test]
fn without_a_tps_evaluator_the_pause_is_the_whole_delay() {
    let runner = runner(5, Source::steady("linux", 40), vec![latency_evaluator()]);
    let target = Source::steady("linux", 25);
    let driven = drive(&runner, &node("X"), &target, 0);
    assert_eq!(driven.actions[5], Action::Sleep(5_000_000_000));
    assert_eq!(driven.actions[6], Action::CollectMetrics(Side::Baseline));
    assert_eq!(driven.slept, 5_000_000_000);
}

#[test]
fn the_longest_delay_does_not_overflow() {
    let runner = runner(u64::MAX, Source::steady("linux", 40), Vec::new());
    let target = node("X");
    let (run, _): (Run<String, String, Node>, Action) = runner.begin(&target);
    let (run, _) = runner.step(run, Event::Evaluated(Ok(Vec::new())), u64::MAX);
    let (run, _) = runner.step(run, Event::SystemInformation(Ok("a".to_string())), u64::MAX);
    let (run, _) = runner.step(run, Event::SystemInformation(Ok("b".to_string())), u64::MAX);
    let (run, _) = runner.step(run, Event::Metrics(Ok(sample(1))), u64::MAX);
    let (_, action) = runner.step(run, Event::Metrics(Ok(sample(1))), u64::MAX);
    assert_eq!(action, Action::Sleep(18_446_744_073_709_551_615_000_000_000));
}

#[test]
fn the_tps_evaluator_runs_once_whatever_its_place() {
    for place in 0..3 {
        let mut evaluators = vec![latency_evaluator(), system_evaluator()];
        evaluators.insert(place, tps_evaluator());
        let runner = runner(1, Source::steady("linux", 40), evaluators);
        let target = Source::steady("linux", 25);
        let driven = drive(&runner, &node("X"), &target, 0);
        let summary = driven.result.unwrap();
        assert_eq!(categories(&summary), vec!["identity", "tps", "latency", "latency", "system"]);
        let asked_for_tps: Vec<&Action> = driven
            .actions
            .iter()
            .filter(|action| matches!(action, Action::Evaluate(_, EvaluatorKind::Tps)))
            .collect();
        assert_eq!(asked_for_tps, vec![&Action::Evaluate(place, EvaluatorKind::Tps)]);
        assert_eq!(driven.actions[5], Action::Evaluate(place, EvaluatorKind::Tps));
    }
}

#[test]
fn of_two_tps_evaluators_only_the_first_runs() {
    let second: Evaluator =
        EvaluatorType::Tps(Box::new(|_| Ok(vec![finding(1, "tps", "the second one")])));
    let runner =
        runner(0, Source::steady("linux", 40), vec![metrics_evaluator(), tps_evaluator(), second]);
    let target = Source::steady("linux", 25);
    let driven = drive(&runner, &node("X"), &target, 0);
    let summary = driven.result.unwrap();
    assert_eq!(
        summary.evaluation_results,
        vec![
            finding(100, "identity", "chain and role"),
            finding(90, "tps", "X"),
            finding(100, "metrics", "baseline 0 target 0"),
        ]
    );
}

#[test]
fn the_summary_is_in_the_order_of_the_run() {
    let runner = runner(
        3,
        Source::new("linux", vec![Ok(sample(10)), Ok(sample(14))]),
        vec![
            system_evaluator(),
            latency_evaluator(),
            tps_evaluator(),
            metrics_evaluator(),
            system_evaluator(),
        ],
    );
    let target = Source::new("bsd", vec![Ok(sample(100)), Ok(sample(109))]);
    let driven = drive(&runner, &node("X"), &target, SECOND);
    assert_eq!(
        driven.result.unwrap().evaluation_results,
        vec![
            finding(100, "identity", "chain and role"),
            finding(90, "tps", "X"),
            finding(10, "system", "linux bsd"),
            finding(80, "latency", "X"),
            finding(70, "latency", "second probe"),
            finding(50, "metrics", "baseline 4 target 9"),
            finding(10, "system", "linux bsd"),
        ]
    );
    assert_eq!(
        driven.actions,
        vec![
            Action::EvaluateNodeIdentity,
            Action::CollectSystemInformation(Side::Baseline),
            Action::CollectSystemInformation(Side::Target),
            Action::CollectMetrics(Side::Baseline),
            Action::CollectMetrics(Side::Target),
            Action::Evaluate(2, EvaluatorKind::Tps),
            Action::Sleep(2_000_000_000),
            Action::CollectMetrics(Side::Baseline),
            Action::CollectMetrics(Side::Target),
            Action::Evaluate(0, EvaluatorKind::SystemInformation),
            Action::Evaluate(1, EvaluatorKind::Latency),
            Action::Evaluate(3, EvaluatorKind::Metrics),
            Action::Evaluate(4, EvaluatorKind::SystemInformation),
            Action::Finish,
        ]
    );
}

#[test]
fn without_evaluators_the_summary_holds_the_identity_findings() {
    let runner = runner(0, Source::steady("linux", 40), Vec::new());
    let target = Source::steady("linux", 25);
    let driven = drive(&runner, &node("X"), &target, 0);
    assert_eq!(
        driven.result.unwrap().evaluation_results,
        vec![finding(100, "identity", "chain and role")]
    );
    assert_eq!(driven.actions.len(), 8);
    assert_eq!(driven.actions[7], Action::Finish);
}

#[test]
fn the_metrics_evaluator_is_given_the_snapshots_of_both_rounds() {
    let runner = runner(
        0,
        Source::new("linux", vec![Ok(sample(1)), Ok(sample(2))]),
        vec![EvaluatorType::Metrics(Box::new(|input: &MetricsEvaluatorInput| {
            Ok(vec![finding(
                100,
                "metrics",
                &format!(
                    "{} {} {} {}",
                    requests(&input.previous_baseline_metrics),
                    requests(&input.previous_target_metrics),
                    requests(&input.latest_baseline_metrics),
                    requests(&input.latest_target_metrics)
                ),
            )])
        }))],
    );
    let target = Source::new("linux", vec![Ok(sample(3)), Ok(sample(4))]);
    let driven = drive(&runner, &node("X"), &target, 0);
    assert_eq!(driven.result.unwrap().evaluation_results[1], finding(100, "metrics", "1 3 2 4"));
}

#[test]
fn a_round_is_parsed_when_the_target_answers() {
    let (runner, target) = (plain_runner(), node("X"));
    let run = at_first_target_metrics(&runner, &target);
    let target = vec!["  ".to_string(), "errors{code=\"500\"} 4 1395066363000".to_string()];
    let (run, action) = runner.step(run, Event::Metrics(Ok(target)), 0);
    assert_eq!(action, Action::CollectMetrics(Side::Baseline));
    match run.stage {
        Stage::SecondBaselineMetrics { window } => {
            assert_eq!(window.previous_baseline_metrics.samples.len(), 1);
            assert_eq!(window.previous_baseline_metrics.samples[0].metric, "requests");
            assert_eq!(window.previous_baseline_metrics.samples[0].value, Value::Counter(1.0));
            assert_eq!(window.previous_target_metrics.samples.len(), 1);
            assert_eq!(window.previous_target_metrics.samples[0].metric, "errors");
            assert_eq!(window.previous_target_metrics.samples[0].value, Value::Untyped(4.0));
            assert_eq!(window.previous_target_metrics.samples[0].labels.get("code"), Some("500"));
        }
        _ => panic!("the second round is due"),
    }
}

#[test]
fn lines_that_the_parser_cannot_read_make_an_empty_snapshot() {
    let (runner, target) = (plain_runner(), node("X"));
    let run = at_first_target_metrics(&runner, &target);
    let unreadable = vec!["<html>".to_string(), "requests=".to_string(), "= 4".to_string()];
    let (run, action) = runner.step(run, Event::Metrics(Ok(unreadable)), 0);
    assert_eq!(action, Action::CollectMetrics(Side::Baseline));
    match run.stage {
        Stage::SecondBaselineMetrics { window } => {
            assert_eq!(window.previous_baseline_metrics.samples.len(), 1);
            assert!(window.previous_target_metrics.samples.is_empty());
            assert!(window.previous_target_metrics.docs.is_empty());
        }
        _ => panic!("the second round is due"),
    }
}

#[test]
fn a_round_that_was_fetched_never_fails_the_run() {
    let runner = runner(
        0,
        Source::new("linux", vec![Ok(vec!["\u{0}".to_string()]), Ok(Vec::new())]),
        Vec::new(),
    );
    let target = Source::new("linux", vec![Ok(vec!["{}".to_string()]), Ok(vec!["#".to_string()])]);
    let driven = drive(&runner, &node("X"), &target, 0);
    assert_eq!(
        driven.result.unwrap().evaluation_results,
        vec![finding(100, "identity", "chain and role")]
    );
    assert_eq!(*target.metrics_calls.borrow(), 2);
}

fn plain_runner() -> Runner {
    runner(0, Source::steady("linux", 40), vec![metrics_evaluator()])
}

fn at_first_target_metrics<'a>(
    runner: &'a Runner,
    target: &'a Node,
) -> Run<'a, String, String, Node> {
    let (run, _) = runner.begin(target);
    let (run, _) = runner.step(run, Event::Evaluated(Ok(vec![finding(100, "identity", "")])), 0);
    let (run, _) = runner.step(run, Event::SystemInformation(Ok("a".to_string())), 0);
    let (run, _) = runner.step(run, Event::SystemInformation(Ok("b".to_string())), 0);
    let (run, action) = runner.step(run, Event::Metrics(Ok(sample(1))), 0);
    assert_eq!(action, Action::CollectMetrics(Side::Target));
    assert!(matches!(run.stage, Stage::FirstTargetMetrics { .. }));
    run
}

fn refusal() -> std::io::Error {
    std::io::Error::new(std::io::ErrorKind::InvalidData, "not a metrics page")
}

#[test]
fn a_parse_failure_in_the_first_round_ends_the_run() {
    let (runner, target) = (plain_runner(), node("X"));
    let run = at_first_target_metrics(&runner, &target);
    let (run, action) = runner.advance(run, Event::Snapshots(Err(refusal())), 0);
    assert_eq!(action, Action::Finish);
    assert!(run.findings.is_empty());
    match run.into_outcome() {
        Some(Err(RunnerError::ParseMetricsError(error))) => {
            assert_eq!(error.kind(), std::io::ErrorKind::InvalidData);
            assert_eq!(error.to_string(), "not a metrics page");
        }
        _ => panic!("the run is to end with a parse failure"),
    }
}

#[test]
fn a_parse_failure_in_the_second_round_ends_the_run() {
    let (runner, target) = (plain_runner(), node("X"));
    let run = at_first_target_metrics(&runner, &target);
    let (run, action) = runner.step(run, Event::Metrics(Ok(sample(2))), 0);
    assert_eq!(action, Action::CollectMetrics(Side::Baseline));
    let (run, action) = runner.step(run, Event::Metrics(Ok(sample(3))), 0);
    assert_eq!(action, Action::CollectMetrics(Side::Target));
    assert!(matches!(run.stage, Stage::SecondTargetMetrics { .. }));
    let (run, action) = runner.advance(run, Event::Snapshots(Err(refusal())), 0);
    assert_eq!(action, Action::Finish);
    assert!(matches!(run.into_outcome(), Some(Err(RunnerError::ParseMetricsError(_)))));
}

#[test]
fn snapshots_handed_over_parsed_open_the_window() {
    let (runner, target) = (plain_runner(), node("X"));
    let run = at_first_target_metrics(&runner, &target);
    let baseline = Scrape::parse(sample(5).into_iter().map(Ok)).unwrap();
    let target = Scrape::parse(sample(6).into_iter().map(Ok)).unwrap();
    let (run, action) = runner.advance(run, Event::Snapshots(Ok((baseline, target))), 0);
    assert_eq!(action, Action::CollectMetrics(Side::Baseline));
    match run.stage {
        Stage::SecondBaselineMetrics { window } => {
            assert_eq!(requests(&window.previous_baseline_metrics), 5.0);
            assert_eq!(requests(&window.previous_target_metrics), 6.0);
            assert_eq!(window.system.baseline_system_information, "a");
            assert_eq!(window.system.target_system_information, "b");
        }
        _ => panic!("the second round is due"),
    }
}

#[test]
fn a_failing_identity_evaluator_fails_the_run() {
    let runner: Runner = BlockingRunner::new(
        BlockingRunnerArgs::default(),
        "X".to_string(),
        Source::steady("linux", 1),
        Box::new(|_: &DirectEvaluatorInput<String, Node>| Err("unreachable".to_string())) as Direct,
        vec![latency_evaluator()],
    );
    let target = Source::steady("linux", 1);
    let driven = drive(&runner, &node("X"), &target, 0);
    assert!(matches!(
        driven.result,
        Err(RunnerError::NodeIdentityEvaluatorError(message)) if message == "unreachable"
    ));
    assert_eq!(target.calls(), 0);
}

#[test]
fn a_failing_baseline_system_information_fetch_fails_the_run() {
    let mut baseline = Source::steady("linux", 1);
    baseline.system_information = Err("baseline down".to_string());
    let runner = runner(0, baseline, Vec::new());
    let target = Source::steady("linux", 1);
    let driven = drive(&runner, &node("X"), &target, 0);
    assert!(matches!(
        driven.result,
        Err(RunnerError::MetricCollectorError(message)) if message == "baseline down"
    ));
    assert_eq!(target.calls(), 0);
}

#[test]
fn a_failing_target_system_information_fetch_fails_the_run() {
    let runner = runner(0, Source::steady("linux", 1), Vec::new());
    let mut target = Source::steady("linux", 1);
    target.system_information = Err("target down".to_string());
    let driven = drive(&runner, &node("X"), &target, 0);
    assert!(matches!(
        driven.result,
        Err(RunnerError::MetricCollectorError(message)) if message == "target down"
    ));
    assert_eq!(*runner.baseline_metric_collector().metrics_calls.borrow(), 0);
}

#[test]
fn a_failing_first_metrics_fetch_fails_the_run() {
    let runner = runner(
        0,
        Source::new("linux", vec![Err("no metrics".to_string())]),
        vec![tps_evaluator()],
    );
    let target = Source::steady("linux", 1);
    let driven = drive(&runner, &node("X"), &target, 0);
    assert!(matches!(
        driven.result,
        Err(RunnerError::MetricCollectorError(message)) if message == "no metrics"
    ));
    assert_eq!(*target.metrics_calls.borrow(), 0);
}

#[test]
fn a_failing_evaluator_fails_the_run_under_its_own_kind() {
    let target = Source::steady("linux", 1);
    let driven = drive(
        &runner(
            0,
            Source::steady("linux", 1),
            vec![latency_evaluator(), failing(EvaluatorKind::Metrics)],
        ),
        &node("X"),
        &target,
        0,
    );
    assert!(matches!(
        driven.result,
        Err(RunnerError::MetricEvaluatorError(message)) if message == "metrics broke"
    ));
    let target = Source::steady("linux", 1);
    let driven = drive(
        &runner(0, Source::steady("linux", 1), vec![failing(EvaluatorKind::SystemInformation)]),
        &node("X"),
        &target,
        0,
    );
    assert!(matches!(
        driven.result,
        Err(RunnerError::SystemInformationEvaluatorError(message)) if message == "system broke"
    ));
    let target = Source::steady("linux", 1);
    let driven = drive(
        &runner(
            0,
            Source::steady("linux", 1),
            vec![failing(EvaluatorKind::Latency), metrics_evaluator()],
        ),
        &node("X"),
        &target,
        0,
    );
    assert!(matches!(
        driven.result,
        Err(RunnerError::LatencyEvaluatorError(message)) if message == "latency broke"
    ));
    assert_eq!(driven.actions.last(), Some(&Action::Finish));
    assert_eq!(
        driven.actions[driven.actions.len() - 2],
        Action::Evaluate(0, EvaluatorKind::Latency)
    );
}

#[test]
fn a_failing_tps_evaluator_fails_the_run_before_the_second_round() {
    let runner = runner(
        4,
        Source::steady("linux", 1),
        vec![metrics_evaluator(), failing(EvaluatorKind::Tps)],
    );
    let target = Source::steady("linux", 1);
    let driven = drive(&runner, &node("X"), &target, 0);
    assert!(matches!(
        driven.result,
        Err(RunnerError::TpsEvaluatorError(message)) if message == "tps broke"
    ));
    assert_eq!(*target.metrics_calls.borrow(), 1);
    assert_eq!(driven.slept, 0);
}

#[test]
fn a_run_of_one_runner_leaves_the_runner_as_it_was() {
    let runner = runner(
        0,
        Source::new("linux", vec![Ok(sample(1)), Ok(sample(2)), Ok(sample(3)), Ok(sample(5))]),
        vec![metrics_evaluator()],
    );
    let first = drive(&runner, &node("X"), &Source::steady("linux", 9), 0);
    let second = drive(&runner, &node("Y"), &Source::steady("linux", 9), 0);
    let third = drive(&runner, &node("X"), &Source::steady("linux", 9), 0);
    assert_eq!(
        first.result.unwrap().evaluation_results[1],
        finding(50, "metrics", "baseline 1 target 0")
    );
    assert_eq!(second.result.unwrap().evaluation_results.len(), 1);
    assert_eq!(
        third.result.unwrap().evaluation_results[1],
        finding(50, "metrics", "baseline 2 target 0")
    );
}
