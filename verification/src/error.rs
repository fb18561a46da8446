//! The failures of a run, one kind for each stage that can fail.

use vstd::prelude::*;

verus! {

/// `std::io::Error`, the error of the metrics parser. Nothing is known of what
/// it holds.
#[verifier::external_type_specification]
#[verifier::external_body]
pub struct ExIoError(std::io::Error);

/// Why a run ended without a summary. Every kind but
/// [`RunnerError::ParseMetricsError`] carries the message of the collaborator
/// that failed.
#[derive(Debug)]
pub enum RunnerError {
    /// The node identity evaluator could not be run to its end.
    NodeIdentityEvaluatorError(String),
    /// A source failed to deliver metrics or system information.
    MetricCollectorError(String),
    /// A metrics response could not be parsed.
    ParseMetricsError(std::io::Error),
    /// The Tps evaluator could not be run to its end.
    TpsEvaluatorError(String),
    /// A metrics evaluator could not be run to its end.
    MetricEvaluatorError(String),
    /// A system information evaluator could not be run to its end.
    SystemInformationEvaluatorError(String),
    /// A latency evaluator could not be run to its end.
    LatencyEvaluatorError(String),
}

} // verus!
