//! Metrics snapshots: the raw lines of a fetch, parsed.

use prometheus_parse::Scrape;
use vstd::prelude::*;

verus! {

/// `prometheus_parse::Scrape`, one parsed metrics fetch. A snapshot is carried
/// through a run and handed to the evaluators; the run reads nothing in it.
#[verifier::external_type_specification]
#[verifier::external_body]
pub struct ExScrape(prometheus_parse::Scrape);

/// Calls `prometheus_parse::Scrape::parse` on the lines of one fetch, each
/// handed over as a line that was read without error. The one claim is that
/// the call succeeds: the parser passes over what it cannot read, and fails
/// only on a line that could not be read, of which there is none here. Nothing
/// is claimed of the snapshot, which the parser stamps with the time of the
/// call.
#[verifier::external_body]
fn parse_response(lines: Vec<String>) -> (parsed: Result<Scrape, std::io::Error>)
    ensures
        parsed is Ok,
{
    Scrape::parse(lines.into_iter().map(Ok))
}

/// Parses the two responses of one metrics round, the baseline's first, into
/// the snapshots of the two sides. Lines that were fetched always make a
/// snapshot, so a round that was fetched always makes two.
pub(crate) fn parse_round(baseline: Vec<String>, target: Vec<String>) -> (parsed: Result<
    (Scrape, Scrape),
    std::io::Error,
>)
    ensures
        parsed is Ok,
{
    match parse_response(baseline) {
        Err(error) => Err(error),
        Ok(baseline_metrics) => match parse_response(target) {
            Err(error) => Err(error),
            Ok(target_metrics) => Ok((baseline_metrics, target_metrics)),
        },
    }
}

} // verus!
