//! The evaluators that a runner is configured with, and what each is given.

use crate::error::RunnerError;
use prometheus_parse::Scrape;
use vstd::prelude::*;

verus! {

/// The variants of an evaluator, without the evaluators themselves.
#[derive(Clone, Copy, Debug, PartialEq, Eq, Structural)]
pub enum EvaluatorKind {
    Metrics,
    SystemInformation,
    Tps,
    Latency,
}

/// One configured evaluator. Each variant owns an evaluator of its own type,
/// since each takes a different input.
#[derive(Debug)]
pub enum EvaluatorType<ME, SE, TE, LE> {
    /// Takes a [`MetricsEvaluatorInput`].
    Metrics(ME),
    /// Takes a [`SystemInformationEvaluatorInput`].
    SystemInformation(SE),
    /// Takes a [`DirectEvaluatorInput`], and makes a timed measurement of its own.
    Tps(TE),
    /// Takes a [`DirectEvaluatorInput`].
    Latency(LE),
}

impl<ME, SE, TE, LE> EvaluatorType<ME, SE, TE, LE> {
    /// The variant, without the evaluator.
    pub open spec fn kind_of(&self) -> EvaluatorKind {
        match self {
            EvaluatorType::Metrics(_) => EvaluatorKind::Metrics,
            EvaluatorType::SystemInformation(_) => EvaluatorKind::SystemInformation,
            EvaluatorType::Tps(_) => EvaluatorKind::Tps,
            EvaluatorType::Latency(_) => EvaluatorKind::Latency,
        }
    }

    /// The variant, without the evaluator.
    #[verifier::when_used_as_spec(kind_of)]
    pub fn kind(&self) -> (kind: EvaluatorKind)
        ensures
            kind == self.kind_of(),
    {
        match self {
            EvaluatorType::Metrics(_) => EvaluatorKind::Metrics,
            EvaluatorType::SystemInformation(_) => EvaluatorKind::SystemInformation,
            EvaluatorType::Tps(_) => EvaluatorKind::Tps,
            EvaluatorType::Latency(_) => EvaluatorKind::Latency,
        }
    }
}

/// The kinds of a list of evaluators, in the list's order.
pub open spec fn kinds_of<ME, SE, TE, LE>(evaluators: Seq<EvaluatorType<ME, SE, TE, LE>>) -> Seq<
    EvaluatorKind,
> {
    Seq::new(evaluators.len(), |i: int| evaluators[i].kind_of())
}

/// The failure of a run whose evaluator of the given kind failed with `message`.
pub open spec fn failure_of(kind: EvaluatorKind, message: String) -> RunnerError {
    match kind {
        EvaluatorKind::Metrics => RunnerError::MetricEvaluatorError(message),
        EvaluatorKind::SystemInformation => RunnerError::SystemInformationEvaluatorError(message),
        EvaluatorKind::Tps => RunnerError::TpsEvaluatorError(message),
        EvaluatorKind::Latency => RunnerError::LatencyEvaluatorError(message),
    }
}

/// The failure of a run whose evaluator of the given kind failed with `message`.
pub fn evaluator_failure(kind: EvaluatorKind, message: String) -> (error: RunnerError)
    ensures
        error == failure_of(kind, message),
{
    match kind {
        EvaluatorKind::Metrics => RunnerError::MetricEvaluatorError(message),
        EvaluatorKind::SystemInformation => RunnerError::SystemInformationEvaluatorError(message),
        EvaluatorKind::Tps => RunnerError::TpsEvaluatorError(message),
        EvaluatorKind::Latency => RunnerError::LatencyEvaluatorError(message),
    }
}

/// What the node identity, Tps and latency evaluators are given: whom to
/// examine, and whom to hold it against.
#[derive(Debug)]
pub struct DirectEvaluatorInput<'a, N, A> {
    pub baseline_node_information: &'a N,
    pub target_node_address: &'a A,
}

/// What a metrics evaluator is given: two snapshots of each side, taken the
/// configured delay apart.
#[derive(Debug)]
pub struct MetricsEvaluatorInput {
    pub previous_baseline_metrics: Scrape,
    pub previous_target_metrics: Scrape,
    pub latest_baseline_metrics: Scrape,
    pub latest_target_metrics: Scrape,
}

/// What a system information evaluator is given: what each side reported.
#[derive(Debug)]
pub struct SystemInformationEvaluatorInput<S> {
    pub baseline_system_information: S,
    pub target_system_information: S,
}

} // verus!
