//! What holds of every run.

use crate::error::RunnerError;
use crate::evaluator::{
    failure_of, EvaluatorKind, MetricsEvaluatorInput, SystemInformationEvaluatorInput,
};
use crate::finding::{all_pass, Finding, MAX_SCORE};
use crate::model::{
    answered, asked, asked_after_identity, asked_after_window, asked_in_window,
    asked_of_evaluators, asked_of_pause, asks_for_tps, begun, drive, enough, evaluate_from,
    expected, expected_after_window, expected_in_window, fetches_twice, gathered,
    holds_what_was_answered, opens_window, outcome_of, over, run_of, succeeds, tps_findings,
    with_answer_at, with_tps_at, Trace, World,
};
use crate::run::{
    admits, deadline_of, dispatch, is_failure, open_window, outcome, pause, seek_other,
    seek_tps, transition, Action, Config, Event, Side, Stage, Window, NANOS_PER_SEC,
};
use vstd::prelude::*;

verus! {

/// [`seek_tps`] finds the first Tps evaluator from `from` on, and finds none
/// only where there is none.
pub proof fn seek_tps_finds_the_first(kinds: Seq<EvaluatorKind>, from: int)
    requires
        0 <= from,
    ensures
        match seek_tps(kinds, from) {
            Some(index) => from <= index < kinds.len() && kinds[index] == EvaluatorKind::Tps
                && forall|i: int| from <= i < index ==> kinds[i] != EvaluatorKind::Tps,
            None => forall|i: int| from <= i < kinds.len() ==> kinds[i] != EvaluatorKind::Tps,
        },
    decreases kinds.len() - from,
{
    if from < kinds.len() && kinds[from] != EvaluatorKind::Tps {
        seek_tps_finds_the_first(kinds, from + 1);
    }
}

/// [`seek_other`] finds the first evaluator from `from` on that is no Tps
/// evaluator, and finds none only where there is none.
pub proof fn seek_other_finds_the_first(kinds: Seq<EvaluatorKind>, from: int)
    requires
        0 <= from,
    ensures
        match seek_other(kinds, from) {
            Some(index) => from <= index < kinds.len() && kinds[index] != EvaluatorKind::Tps
                && forall|i: int| from <= i < index ==> kinds[i] == EvaluatorKind::Tps,
            None => forall|i: int| from <= i < kinds.len() ==> kinds[i] == EvaluatorKind::Tps,
        },
    decreases kinds.len() - from,
{
    if from < kinds.len() && kinds[from] == EvaluatorKind::Tps {
        seek_other_finds_the_first(kinds, from + 1);
    }
}

/// The evaluators are run from the next that is no Tps evaluator.
proof fn evaluate_from_the_next(
    kinds: Seq<EvaluatorKind>,
    evaluations: Seq<Result<Vec<Finding>, String>>,
    findings: Seq<Finding>,
    from: int,
)
    requires
        0 <= from,
    ensures
        evaluate_from(kinds, evaluations, findings, from) == (match seek_other(kinds, from) {
            Some(index) => evaluate_from(kinds, evaluations, findings, index),
            None => Ok(findings),
        }),
    decreases kinds.len() - from,
{
    if from < kinds.len() && kinds[from] == EvaluatorKind::Tps {
        evaluate_from_the_next(kinds, evaluations, findings, from + 1);
    }
}

/// What the evaluators ask for starts at the next that is no Tps evaluator.
proof fn asked_from_the_next(
    kinds: Seq<EvaluatorKind>,
    evaluations: Seq<Result<Vec<Finding>, String>>,
    from: int,
)
    requires
        0 <= from,
    ensures
        asked_of_evaluators(kinds, evaluations, from) == (match seek_other(kinds, from) {
            Some(index) => asked_of_evaluators(kinds, evaluations, index),
            None => seq![Action::Finish],
        }),
    decreases kinds.len() - from,
{
    if from < kinds.len() && kinds[from] == EvaluatorKind::Tps {
        asked_from_the_next(kinds, evaluations, from + 1);
    }
}

/// A run whose second snapshots are taken ends as its evaluators decide.
proof fn evaluators_end_as_expected<S>(
    config: Config,
    world: World<S>,
    system: SystemInformationEvaluatorInput<S>,
    metrics: MetricsEvaluatorInput,
    findings: Seq<Finding>,
    from: int,
    actions: Seq<Action>,
    steps: nat,
)
    requires
        config.well_formed(),
        0 <= from,
        steps >= config.kinds.len() - from,
    ensures
        ({
            let next = dispatch(config, system, metrics, findings, from);
            let end = drive(
                config,
                world,
                Trace {
                    stage: next.stage,
                    findings: next.findings,
                    actions: actions.push(next.action),
                },
                steps,
            );
            &&& outcome_of(end) == Some(
                evaluate_from(config.kinds, world.evaluations, findings, from),
            )
            &&& end.actions =~= actions + asked_of_evaluators(
                config.kinds,
                world.evaluations,
                from,
            )
        }),
    decreases config.kinds.len() - from,
{
    let next = dispatch(config, system, metrics, findings, from);
    let trace = Trace {
        stage: next.stage,
        findings: next.findings,
        actions: actions.push(next.action),
    };
    seek_other_finds_the_first(config.kinds, from);
    evaluate_from_the_next(config.kinds, world.evaluations, findings, from);
    asked_from_the_next(config.kinds, world.evaluations, from);
    match seek_other(config.kinds, from) {
        None => {},
        Some(index) => {
            let after = answered(config, world, trace);
            assert(drive(config, world, trace, steps) == drive(
                config,
                world,
                after,
                (steps - 1) as nat,
            ));
            match world.evaluations[index] {
                Err(message) => {},
                Ok(found) => {
                    evaluators_end_as_expected(
                        config,
                        world,
                        system,
                        metrics,
                        findings + found@,
                        index + 1,
                        trace.actions,
                        (steps - 1) as nat,
                    );
                },
            }
        },
    }
}

/// A run whose pause is over ends as its second round and its evaluators
/// decide.
proof fn second_round_ends_as_expected<S>(
    config: Config,
    world: World<S>,
    window: Window<S>,
    findings: Seq<Finding>,
    actions: Seq<Action>,
    steps: nat,
)
    requires
        config.well_formed(),
        steps >= config.kinds.len() + 2,
    ensures
        ({
            let end = drive(
                config,
                world,
                Trace { stage: Stage::SecondBaselineMetrics { window }, findings, actions },
                steps,
            );
            &&& outcome_of(end) == Some(expected_after_window(config, world, findings))
            &&& actions.len() > 0 && actions.last() == Action::CollectMetrics(Side::Baseline)
                ==> end.actions =~= actions.drop_last() + asked_after_window(config, world)
        }),
{
    let asked = Trace { stage: Stage::SecondBaselineMetrics { window }, findings, actions };
    let fetched = answered(config, world, asked);
    assert(drive(config, world, asked, steps) == drive(config, world, fetched, (steps - 1) as nat));
    if world.second_baseline_metrics is Ok {
        let parsed = answered(config, world, fetched);
        assert(drive(config, world, fetched, (steps - 1) as nat) == drive(
            config,
            world,
            parsed,
            (steps - 2) as nat,
        ));
        if world.second_target_metrics is Ok {
            match world.second_snapshots {
                Err(_) => {},
                Ok(snapshots) => {
                    evaluators_end_as_expected(
                        config,
                        world,
                        window.system,
                        MetricsEvaluatorInput {
                            previous_baseline_metrics: window.previous_baseline_metrics,
                            previous_target_metrics: window.previous_target_metrics,
                            latest_baseline_metrics: snapshots.0,
                            latest_target_metrics: snapshots.1,
                        },
                        findings,
                        0,
                        fetched.actions,
                        (steps - 2) as nat,
                    );
                },
            }
        }
    }
}

/// A run that pauses, or has no need to, ends as its second round and its
/// evaluators decide.
proof fn pause_ends_as_expected<S>(
    config: Config,
    world: World<S>,
    window: Window<S>,
    findings: Seq<Finding>,
    deadline: int,
    now: u64,
    actions: Seq<Action>,
    steps: nat,
)
    requires
        config.well_formed(),
        steps >= config.kinds.len() + 3,
    ensures
        ({
            let next = pause(window, findings, deadline, now);
            let end = drive(
                config,
                world,
                Trace {
                    stage: next.stage,
                    findings: next.findings,
                    actions: actions.push(next.action),
                },
                steps,
            );
            &&& outcome_of(end) == Some(expected_after_window(config, world, findings))
            &&& end.actions =~= actions + (asked_of_pause(deadline, now) + asked_after_window(
                config,
                world,
            ))
        }),
{
    let next = pause(window, findings, deadline, now);
    let asked = Trace {
        stage: next.stage,
        findings: next.findings,
        actions: actions.push(next.action),
    };
    if now >= deadline {
        second_round_ends_as_expected(config, world, window, findings, asked.actions, steps);
    } else {
        let woken = answered(config, world, asked);
        assert(drive(config, world, asked, steps) == drive(
            config,
            world,
            woken,
            (steps - 1) as nat,
        ));
        second_round_ends_as_expected(
            config,
            world,
            window,
            findings,
            woken.actions,
            (steps - 1) as nat,
        );
    }
}

/// A run whose first snapshots are taken ends as the Tps evaluator, the
/// second round and the other evaluators decide.
proof fn window_ends_as_expected<S>(
    config: Config,
    world: World<S>,
    window: Window<S>,
    findings: Seq<Finding>,
    now: u64,
    actions: Seq<Action>,
    steps: nat,
)
    requires
        config.well_formed(),
        steps >= config.kinds.len() + 4,
        now == world.window_opened_at,
    ensures
        ({
            let next = open_window(config, window, findings, now);
            let end = drive(
                config,
                world,
                Trace {
                    stage: next.stage,
                    findings: next.findings,
                    actions: actions.push(next.action),
                },
                steps,
            );
            &&& outcome_of(end) == Some(expected_in_window(config, world, findings))
            &&& end.actions =~= actions + asked_in_window(config, world)
        }),
{
    let next = open_window(config, window, findings, now);
    let asked = Trace {
        stage: next.stage,
        findings: next.findings,
        actions: actions.push(next.action),
    };
    let deadline = deadline_of(config, now);
    match seek_tps(config.kinds, 0) {
        None => {
            pause_ends_as_expected(config, world, window, findings, deadline, now, actions, steps);
        },
        Some(_) => {
            let measured = answered(config, world, asked);
            assert(drive(config, world, asked, steps) == drive(
                config,
                world,
                measured,
                (steps - 1) as nat,
            ));
            match world.tps {
                Err(_) => {},
                Ok(found) => {
                    pause_ends_as_expected(
                        config,
                        world,
                        window,
                        findings + found@,
                        deadline as u128 as int,
                        world.tps_done_at,
                        asked.actions,
                        (steps - 1) as nat,
                    );
                },
            }
        },
    }
}

/// Every run ends, and ends as [`expected`] says: the state machine, told
/// what the collaborators answer, comes to that outcome after no more events
/// than there are fetches, evaluators and the pause.
pub proof fn run_ends_as_expected<S>(config: Config, world: World<S>, steps: nat)
    requires
        config.well_formed(),
        steps >= config.kinds.len() + 9,
    ensures
        outcome_of(drive(config, world, begun(), steps)) == Some(expected(config, world)),
        drive(config, world, begun(), steps).actions =~= asked(config, world),
{
    let t0 = begun::<S>();
    let t1 = answered(config, world, t0);
    assert(drive(config, world, t0, steps) == drive(config, world, t1, (steps - 1) as nat));
    if world.node_identity is Ok && all_pass(world.node_identity->Ok_0@) {
        let identity = world.node_identity->Ok_0;
        let t2 = answered(config, world, t1);
        assert(drive(config, world, t1, (steps - 1) as nat) == drive(
            config,
            world,
            t2,
            (steps - 2) as nat,
        ));
        if world.baseline_system_information is Ok {
            let t3 = answered(config, world, t2);
            assert(drive(config, world, t2, (steps - 2) as nat) == drive(
                config,
                world,
                t3,
                (steps - 3) as nat,
            ));
            if world.target_system_information is Ok {
                let t4 = answered(config, world, t3);
                assert(drive(config, world, t3, (steps - 3) as nat) == drive(
                    config,
                    world,
                    t4,
                    (steps - 4) as nat,
                ));
                if world.first_baseline_metrics is Ok {
                    let t5 = answered(config, world, t4);
                    assert(drive(config, world, t4, (steps - 4) as nat) == drive(
                        config,
                        world,
                        t5,
                        (steps - 5) as nat,
                    ));
                    if world.first_target_metrics is Ok {
                        match world.first_snapshots {
                            Err(_) => {},
                            Ok(snapshots) => {
                                window_ends_as_expected(
                                    config,
                                    world,
                                    Window {
                                        system: SystemInformationEvaluatorInput {
                                            baseline_system_information:
                                                world.baseline_system_information->Ok_0,
                                            target_system_information:
                                                world.target_system_information->Ok_0,
                                        },
                                        previous_baseline_metrics: snapshots.0,
                                        previous_target_metrics: snapshots.1,
                                    },
                                    identity@,
                                    world.window_opened_at,
                                    t4.actions,
                                    (steps - 5) as nat,
                                );
                            },
                        }
                    }
                }
            }
        }
    }
}

/// The whole run in `world` ends as [`expected`] says, and has asked for what
/// [`asked`] says, in that order.
pub proof fn the_run_ends_as_expected<S>(config: Config, world: World<S>)
    requires
        config.well_formed(),
    ensures
        outcome_of(run_of(config, world)) == Some(expected(config, world)),
        run_of(config, world).actions =~= asked(config, world),
        over(run_of(config, world).stage),
{
    run_ends_as_expected(config, world, enough(config));
}

/// The clock plays a part only where the window opens and where the Tps
/// evaluator is done: at every other stage a run goes on in the same way
/// whatever the time.
pub proof fn the_time_plays_a_part_only_in_the_window<S>(
    config: Config,
    stage: Stage<S>,
    findings: Seq<Finding>,
    event: Event<S>,
    now: u64,
    other: u64,
)
    requires
        !(stage is FirstTargetMetrics),
        !(stage is Tps),
    ensures
        transition(config, stage, findings, event, now) == transition(
            config,
            stage,
            findings,
            event,
            other,
        ),
{
}


/// One answer keeps a run holding what it was answered.
proof fn an_answer_is_held<S>(config: Config, world: World<S>, trace: Trace<S>)
    requires
        config.well_formed(),
        holds_what_was_answered(config, world, trace.stage),
        !over(trace.stage),
    ensures
        holds_what_was_answered(config, world, answered(config, world, trace).stage),
{
    match trace.stage {
        Stage::FirstTargetMetrics { .. } => {
            seek_tps_finds_the_first(config.kinds, 0);
        },
        Stage::SecondTargetMetrics { .. } => {
            seek_other_finds_the_first(config.kinds, 0);
        },
        Stage::Evaluators { index, .. } => {
            seek_other_finds_the_first(config.kinds, index + 1);
        },
        _ => {},
    }
}

/// At every point of a run, what the run holds for the evaluators is what
/// the sources and the parser answered: the system information of each side
/// verbatim, the first snapshots as the previous ones and the second as the
/// latest, none of them on the wrong side. The evaluator that a run waits
/// for after the second round is a configured one of the kind that the run
/// takes it for.
pub proof fn a_run_holds_what_it_was_answered<S>(config: Config, world: World<S>, steps: nat)
    requires
        config.well_formed(),
    ensures
        holds_what_was_answered(config, world, drive(config, world, begun(), steps).stage),
{
    answers_are_held(config, world, begun(), steps);
}

/// Any number of answers keep a run holding what it was answered.
proof fn answers_are_held<S>(config: Config, world: World<S>, trace: Trace<S>, steps: nat)
    requires
        config.well_formed(),
        holds_what_was_answered(config, world, trace.stage),
    ensures
        holds_what_was_answered(config, world, drive(config, world, trace, steps).stage),
    decreases steps,
{
    if steps > 0 && !over(trace.stage) {
        an_answer_is_held(config, world, trace);
        answers_are_held(config, world, answered(config, world, trace), (steps - 1) as nat);
    }
}


/// A node identity finding below the maximum ends the run at once: it
/// succeeds with the node identity findings alone, and has asked for nothing
/// but the node identity evaluation. No system information and no metrics are
/// fetched.
pub proof fn a_mismatch_ends_the_run_at_once<S>(config: Config, world: World<S>)
    requires
        world.node_identity is Ok,
        exists|i: int|
            0 <= i < world.node_identity->Ok_0@.len() && (
            #[trigger] world.node_identity->Ok_0@[i]).score_value() < MAX_SCORE,
    ensures
        outcome_of(run_of(config, world)) == Some(
            Ok::<Seq<Finding>, RunnerError>(world.node_identity->Ok_0@),
        ),
        run_of(config, world).actions =~= seq![Action::EvaluateNodeIdentity, Action::Finish],
{
    let identity = world.node_identity->Ok_0@;
    let failing = choose|i: int|
        0 <= i < identity.len() && (#[trigger] identity[i]).score_value() < MAX_SCORE;
    assert(!identity[failing].passes());
    let t0 = begun::<S>();
    let t1 = answered(config, world, t0);
    assert(drive(config, world, t0, enough(config)) == drive(
        config,
        world,
        t1,
        (enough(config) - 1) as nat,
    ));
    assert(t1.findings =~= identity);
}

/// Where every node identity finding has the maximum score, the run does
/// not end there: it goes on to the sources, the baseline's first.
pub proof fn a_match_goes_on_to_the_sources<S>(config: Config, world: World<S>)
    requires
        config.well_formed(),
        world.node_identity is Ok,
        forall|i: int|
            0 <= i < world.node_identity->Ok_0@.len() ==> (
            #[trigger] world.node_identity->Ok_0@[i]).score_value() == MAX_SCORE,
    ensures
        run_of(config, world).actions.len() > 2,
        run_of(config, world).actions[1] == Action::CollectSystemInformation(Side::Baseline),
{
    run_ends_as_expected(config, world, enough(config));
    assert(all_pass(world.node_identity->Ok_0@));
    let rest = asked_after_identity(config, world);
    assert(asked(config, world)[1] == rest[0]);
}

/// Where every node identity finding has the maximum score, the run goes on
/// to the sources, and unless something fails on the way it calls the
/// target's at least three times: once for its system information and twice
/// for its metrics.
pub proof fn a_match_leads_to_three_calls_of_the_target<S>(
    config: Config,
    world: World<S>,
)
    requires
        config.well_formed(),
        fetches_twice(config, world),
    ensures
        ({
            let actions = run_of(config, world).actions;
            &&& actions.len() > 7
            &&& actions[1] == Action::CollectSystemInformation(Side::Baseline)
            &&& actions[2] == Action::CollectSystemInformation(Side::Target)
            &&& actions[4] == Action::CollectMetrics(Side::Target)
            &&& exists|later: int|
                4 < later < actions.len() && #[trigger] actions[later] == Action::CollectMetrics(
                    Side::Target,
                )
        }),
{
    run_ends_as_expected(config, world, enough(config));
    let actions = asked(config, world);
    let paused = if seek_tps(config.kinds, 0) is Some {
        asked_of_pause(deadline_of(config, world.window_opened_at), world.tps_done_at)
    } else {
        asked_of_pause(deadline_of(config, world.window_opened_at), world.window_opened_at)
    };
    let later = 6 + (if seek_tps(config.kinds, 0) is Some {
        1int
    } else {
        0int
    }) + paused.len();
    assert(actions[later] == Action::CollectMetrics(Side::Target));
}

/// The pause is anchored where the window opens. A Tps evaluator that takes
/// as long as the delay or longer is followed at once by the second fetch; a
/// quicker one by a pause for what is left of the delay, not for the whole of
/// it.
pub proof fn the_delay_is_anchored_where_the_window_opens<S>(
    config: Config,
    world: World<S>,
)
    requires
        config.well_formed(),
        opens_window(world),
        seek_tps(config.kinds, 0) is Some,
        world.tps is Ok,
    ensures
        ({
            let actions = run_of(config, world).actions;
            let delay = config.delay_secs * NANOS_PER_SEC;
            &&& actions.len() > 6
            &&& actions[5] == Action::Evaluate(
                seek_tps(config.kinds, 0)->Some_0 as usize,
                EvaluatorKind::Tps,
            )
            &&& world.tps_done_at - world.window_opened_at >= delay ==> actions[6]
                == Action::CollectMetrics(Side::Baseline)
            &&& world.tps_done_at - world.window_opened_at < delay ==> actions[6] == Action::Sleep(
                (delay - (world.tps_done_at - world.window_opened_at)) as u128,
            ) && actions[7] == Action::CollectMetrics(Side::Baseline)
        }),
{
    run_ends_as_expected(config, world, enough(config));
    let actions = asked(config, world);
    let paused = asked_of_pause(deadline_of(config, world.window_opened_at), world.tps_done_at);
    assert(actions[6] == (paused + asked_after_window(config, world))[0]);
    assert(actions[7] == (paused + asked_after_window(config, world))[1]);
}

/// A run without a Tps evaluator pauses for the whole delay, and not at all
/// where the delay is zero.
pub proof fn without_tps_the_pause_is_the_delay<S>(config: Config, world: World<S>)
    requires
        config.well_formed(),
        opens_window(world),
        seek_tps(config.kinds, 0) is None,
    ensures
        ({
            let actions = run_of(config, world).actions;
            &&& actions.len() > 5
            &&& config.delay_secs == 0 ==> actions[5] == Action::CollectMetrics(Side::Baseline)
            &&& config.delay_secs > 0 ==> actions[5] == Action::Sleep(
                (config.delay_secs * NANOS_PER_SEC) as u128,
            ) && actions[6] == Action::CollectMetrics(Side::Baseline)
        }),
{
    run_ends_as_expected(config, world, enough(config));
    let actions = asked(config, world);
    let paused = asked_of_pause(
        deadline_of(config, world.window_opened_at),
        world.window_opened_at,
    );
    assert(actions[5] == (paused + asked_after_window(config, world))[0]);
    assert(actions[6] == (paused + asked_after_window(config, world))[1]);
}

/// Evaluators that all give an answer add their findings in their order,
/// those of a Tps evaluator left out.
pub proof fn evaluators_add_their_findings_in_order(
    kinds: Seq<EvaluatorKind>,
    evaluations: Seq<Result<Vec<Finding>, String>>,
    findings: Seq<Finding>,
    from: int,
)
    requires
        0 <= from,
        forall|i: int|
            from <= i < kinds.len() && kinds[i] != EvaluatorKind::Tps ==> (
            #[trigger] evaluations[i]) is Ok,
    ensures
        evaluate_from(kinds, evaluations, findings, from) == Ok::<Seq<Finding>, RunnerError>(
            findings + gathered(kinds, evaluations, from),
        ),
    decreases kinds.len() - from,
{
    if from < kinds.len() {
        if kinds[from] == EvaluatorKind::Tps {
            evaluators_add_their_findings_in_order(kinds, evaluations, findings, from + 1);
        } else {
            let found = evaluations[from]->Ok_0@;
            evaluators_add_their_findings_in_order(kinds, evaluations, findings + found, from + 1);
            assert((findings + found) + gathered(kinds, evaluations, from + 1) =~= findings + (found
                + gathered(kinds, evaluations, from + 1)));
        }
    } else {
        assert(findings + gathered(kinds, evaluations, from) =~= findings);
    }
}

/// The summary of a run in which nothing fails holds the node identity
/// findings, then those of the Tps evaluator if one is configured, then those
/// of each other evaluator in the configured order.
pub proof fn the_summary_is_in_the_order_of_the_run<S>(
    config: Config,
    world: World<S>,
)
    requires
        config.well_formed(),
        succeeds(config, world),
    ensures
        outcome_of(run_of(config, world)) == Some(
            Ok::<Seq<Finding>, RunnerError>(
                world.node_identity->Ok_0@ + tps_findings(config, world) + gathered(
                    config.kinds,
                    world.evaluations,
                    0,
                ),
            ),
        ),
{
    run_ends_as_expected(config, world, enough(config));
    let identity = world.node_identity->Ok_0@;
    let first = identity + tps_findings(config, world);
    evaluators_add_their_findings_in_order(config.kinds, world.evaluations, first, 0);
    assert(identity + Seq::<Finding>::empty() =~= identity);
}

/// Among what the evaluators ask for after the second round, no Tps
/// evaluator is run.
proof fn no_tps_after_the_window(
    kinds: Seq<EvaluatorKind>,
    evaluations: Seq<Result<Vec<Finding>, String>>,
    from: int,
)
    requires
        0 <= from,
    ensures
        forall|k: int|
            0 <= k < asked_of_evaluators(kinds, evaluations, from).len() ==> !asks_for_tps(
                #[trigger] asked_of_evaluators(kinds, evaluations, from)[k],
            ),
    decreases kinds.len() - from,
{
    let asked = asked_of_evaluators(kinds, evaluations, from);
    if from >= kinds.len() {
        assert(asked[0] == Action::Finish);
    } else {
        no_tps_after_the_window(kinds, evaluations, from + 1);
        let rest = asked_of_evaluators(kinds, evaluations, from + 1);
        if kinds[from] != EvaluatorKind::Tps {
            let first = seq![Action::Evaluate(from as usize, kinds[from])];
            assert(first[0] == Action::Evaluate(from as usize, kinds[from]));
            match evaluations[from] {
                Ok(_) => {
                    assert forall|k: int| 0 <= k < asked.len() implies !asks_for_tps(
                        #[trigger] asked[k],
                    ) by {
                        if k > 0 {
                            assert(asked[k] == rest[k - 1]);
                        }
                    }
                },
                Err(_) => {
                    let last = seq![Action::Finish];
                    assert(last[0] == Action::Finish);
                    assert forall|k: int| 0 <= k < asked.len() implies !asks_for_tps(
                        #[trigger] asked[k],
                    ) by {
                        if k > 0 {
                            assert(asked[k] == last[k - 1]);
                        }
                    }
                },
            }
        }
    }
}

/// The Tps evaluator is run at most once in a run, wherever it stands among
/// the configured evaluators: in the window, as the sixth thing that the run
/// asks for. Where several are configured, it is the first of them. A run
/// that opens its window with a Tps evaluator configured does run it.
pub proof fn the_tps_evaluator_runs_once<S>(config: Config, world: World<S>)
    requires
        config.well_formed(),
    ensures
        ({
            let actions = run_of(config, world).actions;
            &&& forall|k: int|
                0 <= k < actions.len() && asks_for_tps(#[trigger] actions[k]) ==> k == 5
                    && seek_tps(config.kinds, 0) is Some && actions[k] == Action::Evaluate(
                    seek_tps(config.kinds, 0)->Some_0 as usize,
                    EvaluatorKind::Tps,
                )
            &&& opens_window(world) && seek_tps(config.kinds, 0) is Some ==> actions.len() > 5
                && asks_for_tps(actions[5])
        }),
{
    run_ends_as_expected(config, world, enough(config));
    no_tps_after_the_window(config.kinds, world.evaluations, 0);
    let actions = asked(config, world);
    let rest = asked_of_evaluators(config.kinds, world.evaluations, 0);
    assert forall|k: int| 0 <= k < actions.len() && asks_for_tps(#[trigger] actions[k]) implies k
        == 5 && seek_tps(config.kinds, 0) is Some && actions[k] == Action::Evaluate(
        seek_tps(config.kinds, 0)->Some_0 as usize,
        EvaluatorKind::Tps,
    ) by {
        if k > 5 {
            let start = actions.len() - rest.len();
            if opens_window(world) && world.second_baseline_metrics is Ok
                && world.second_target_metrics is Ok && world.second_snapshots is Ok && (seek_tps(
                config.kinds,
                0,
            ) is Some ==> world.tps is Ok) {
                assert(actions =~= actions.subrange(0, start) + rest);
                if k >= start {
                    assert(actions[k] == rest[k - start]);
                }
            }
        }
    }
}

/// Whatever fails ends the run at once, without a summary and with nothing
/// more asked for, in a failure of the kind of the stage that failed: a fetch
/// as a collector failure, unparsable metrics as a parse failure, an
/// evaluator as the failure of its kind.
pub proof fn a_failure_ends_the_run<S>(
    config: Config,
    stage: Stage<S>,
    findings: Seq<Finding>,
    event: Event<S>,
    now: u64,
)
    requires
        admits(stage, event),
        is_failure(event),
    ensures
        ({
            let next = transition(config, stage, findings, event, now);
            &&& next.action == Action::Finish
            &&& next.findings == Seq::<Finding>::empty()
            &&& next.stage matches Stage::Failed(error)
            &&& outcome(next.stage, next.findings) == Some(
                Err::<Seq<Finding>, RunnerError>(error),
            )
            &&& match event {
                Event::SystemInformation(outcome) => error == RunnerError::MetricCollectorError(
                    outcome->Err_0,
                ),
                Event::Metrics(outcome) => error == RunnerError::MetricCollectorError(
                    outcome->Err_0,
                ),
                Event::Snapshots(outcome) => error == RunnerError::ParseMetricsError(
                    outcome->Err_0,
                ),
                Event::Evaluated(outcome) => match stage {
                    Stage::NodeIdentity => error == RunnerError::NodeIdentityEvaluatorError(
                        outcome->Err_0,
                    ),
                    Stage::Tps { .. } => error == RunnerError::TpsEvaluatorError(outcome->Err_0),
                    Stage::Evaluators { kind, .. } => error == failure_of(kind, outcome->Err_0),
                    _ => false,
                },
                Event::Woke => false,
            }
        }),
{
}


/// A response that the parser refuses ends the run with a parse failure,
/// whichever round it belongs to and whatever the run has found so far.
pub proof fn a_parse_failure_ends_the_run<S>(
    config: Config,
    stage: Stage<S>,
    findings: Seq<Finding>,
    error: std::io::Error,
    now: u64,
)
    requires
        stage is FirstTargetMetrics || stage is SecondTargetMetrics,
    ensures
        ({
            let next = transition(config, stage, findings, Event::Snapshots(Err(error)), now);
            &&& next.action == Action::Finish
            &&& outcome(next.stage, next.findings) == Some(
                Err::<Seq<Finding>, RunnerError>(RunnerError::ParseMetricsError(error)),
            )
        }),
{
}

/// A run in which a round of metrics is fetched and then refused by the
/// parser ends with a parse failure, and without a summary.
pub proof fn a_refused_round_fails_the_run<S>(config: Config, world: World<S>)
    requires
        config.well_formed(),
        world.node_identity matches Ok(identity) && all_pass(identity@),
        world.baseline_system_information is Ok,
        world.target_system_information is Ok,
        world.first_baseline_metrics is Ok,
        world.first_target_metrics is Ok,
        world.first_snapshots is Err || (fetches_twice(config, world)
            && world.second_target_metrics is Ok && world.second_snapshots is Err),
    ensures
        outcome_of(run_of(config, world)) == Some(
            Err::<Seq<Finding>, RunnerError>(
                RunnerError::ParseMetricsError(
                    if world.first_snapshots is Err {
                        world.first_snapshots->Err_0
                    } else {
                        world.second_snapshots->Err_0
                    },
                ),
            ),
        ),
{
    run_ends_as_expected(config, world, enough(config));
}

/// Behind a Tps evaluator that was put in, the evaluators lead to what they
/// led to without it.
proof fn evaluate_behind_tps(
    kinds: Seq<EvaluatorKind>,
    evaluations: Seq<Result<Vec<Finding>, String>>,
    place: int,
    answer: Result<Vec<Finding>, String>,
    findings: Seq<Finding>,
    from: int,
)
    requires
        0 <= place <= kinds.len(),
        evaluations.len() == kinds.len(),
        place < from,
    ensures
        evaluate_from(
            kinds.insert(place, EvaluatorKind::Tps),
            evaluations.insert(place, answer),
            findings,
            from,
        ) == evaluate_from(kinds, evaluations, findings, from - 1),
    decreases kinds.len() + 1 - from,
{
    kinds.insert_ensures(place, EvaluatorKind::Tps);
    evaluations.insert_ensures(place, answer);
    if from <= kinds.len() {
        assert(kinds.insert(place, EvaluatorKind::Tps)[from - 1 + 1] == kinds[from - 1]);
        assert(evaluations.insert(place, answer)[from - 1 + 1] == evaluations[from - 1]);
        if kinds[from - 1] == EvaluatorKind::Tps {
            evaluate_behind_tps(kinds, evaluations, place, answer, findings, from + 1);
        } else if evaluations[from - 1] is Ok {
            evaluate_behind_tps(
                kinds,
                evaluations,
                place,
                answer,
                findings + evaluations[from - 1]->Ok_0@,
                from + 1,
            );
        }
    }
}

/// With a Tps evaluator put in, the evaluators lead to what they led to
/// without it.
proof fn evaluate_around_tps(
    kinds: Seq<EvaluatorKind>,
    evaluations: Seq<Result<Vec<Finding>, String>>,
    place: int,
    answer: Result<Vec<Finding>, String>,
    findings: Seq<Finding>,
    from: int,
)
    requires
        0 <= from <= place <= kinds.len(),
        evaluations.len() == kinds.len(),
    ensures
        evaluate_from(
            kinds.insert(place, EvaluatorKind::Tps),
            evaluations.insert(place, answer),
            findings,
            from,
        ) == evaluate_from(kinds, evaluations, findings, from),
    decreases place - from,
{
    kinds.insert_ensures(place, EvaluatorKind::Tps);
    evaluations.insert_ensures(place, answer);
    if from == place {
        evaluate_behind_tps(kinds, evaluations, place, answer, findings, from + 1);
    } else if kinds[from] == EvaluatorKind::Tps {
        evaluate_around_tps(kinds, evaluations, place, answer, findings, from + 1);
    } else if evaluations[from] is Ok {
        evaluate_around_tps(
            kinds,
            evaluations,
            place,
            answer,
            findings + evaluations[from]->Ok_0@,
            from + 1,
        );
    }
}

/// The place of the Tps evaluator among the configured evaluators plays no
/// part in how a run ends: put in at one place or at another, it adds its
/// findings once, behind those of the node identity, and what it would answer
/// where it stands in the list is never asked for.
pub proof fn the_place_of_tps_plays_no_part<S>(
    config: Config,
    world: World<S>,
    place: int,
    answer: Result<Vec<Finding>, String>,
    other_place: int,
    other_answer: Result<Vec<Finding>, String>,
)
    requires
        world.evaluations.len() == config.kinds.len(),
        0 <= place <= config.kinds.len(),
        0 <= other_place <= config.kinds.len(),
    ensures
        expected(with_tps_at(config, place), with_answer_at(world, place, answer)) == expected(
            with_tps_at(config, other_place),
            with_answer_at(world, other_place, other_answer),
        ),
{
    let here = with_tps_at(config, place);
    let there = with_tps_at(config, other_place);
    config.kinds.insert_ensures(place, EvaluatorKind::Tps);
    config.kinds.insert_ensures(other_place, EvaluatorKind::Tps);
    seek_tps_finds_the_first(here.kinds, 0);
    seek_tps_finds_the_first(there.kinds, 0);
    assert(seek_tps(here.kinds, 0) is Some);
    assert(seek_tps(there.kinds, 0) is Some);
    if world.node_identity is Ok {
        let identity = world.node_identity->Ok_0@;
        let findings = if world.tps is Ok {
            identity + world.tps->Ok_0@
        } else {
            identity
        };
        evaluate_around_tps(config.kinds, world.evaluations, place, answer, findings, 0);
        evaluate_around_tps(
            config.kinds,
            world.evaluations,
            other_place,
            other_answer,
            findings,
            0,
        );
    }
}

} // verus!
