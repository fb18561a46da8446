//! Scored findings and the summary that a run ends with.

use vstd::prelude::*;

verus! {

/// The score of a finding that found nothing wrong.
pub const MAX_SCORE: u8 = 100;

/// One scored result of an evaluator.
#[derive(Debug, PartialEq, Eq)]
pub struct Finding {
    score: u8,
    category: String,
    explanation: String,
}

impl Finding {
    #[verifier::type_invariant]
    spec fn in_range(self) -> bool {
        self.score <= MAX_SCORE
    }

    /// The score, from 0 to [`MAX_SCORE`].
    pub closed spec fn score_value(&self) -> u8 {
        self.score
    }

    /// The aspect of the node's health that the finding is about.
    pub closed spec fn category_value(&self) -> String {
        self.category
    }

    /// What the evaluator saw.
    pub closed spec fn explanation_value(&self) -> String {
        self.explanation
    }

    /// A finding passes when it has the maximum score.
    pub open spec fn passes(&self) -> bool {
        self.score_value() == MAX_SCORE
    }

    /// Makes a finding; there is none with a score above [`MAX_SCORE`].
    pub fn new(score: u8, category: String, explanation: String) -> (made: Option<Finding>)
        ensures
            made is Some <==> score <= MAX_SCORE,
            made matches Some(f) ==> f.score_value() == score && f.category_value() == category
                && f.explanation_value() == explanation,
    {
        if score <= MAX_SCORE {
            Some(Finding { score, category, explanation })
        } else {
            None
        }
    }

    /// The score, from 0 to [`MAX_SCORE`].
    #[verifier::when_used_as_spec(score_value)]
    pub fn score(&self) -> (score: u8)
        ensures
            score == self.score_value(),
            score <= MAX_SCORE,
    {
        proof {
            use_type_invariant(self);
        }
        self.score
    }

    /// The aspect of the node's health that the finding is about.
    pub fn category(&self) -> (category: &String)
        ensures
            *category == self.category_value(),
    {
        &self.category
    }

    /// What the evaluator saw.
    pub fn explanation(&self) -> (explanation: &String)
        ensures
            *explanation == self.explanation_value(),
    {
        &self.explanation
    }

    /// Whether the finding has the maximum score.
    pub fn is_passing(&self) -> (passing: bool)
        ensures
            passing == self.passes(),
    {
        self.score == MAX_SCORE
    }
}

impl Clone for Finding {
    fn clone(&self) -> (copy: Self)
        ensures
            copy == *self,
    {
        proof {
            use_type_invariant(self);
        }
        Finding {
            score: self.score,
            category: self.category.clone(),
            explanation: self.explanation.clone(),
        }
    }
}

/// Whether every finding of `findings` passes.
pub open spec fn all_pass(findings: Seq<Finding>) -> bool {
    forall|i: int| 0 <= i < findings.len() ==> (#[trigger] findings[i]).passes()
}

/// Whether every finding of `findings` passes.
pub fn all_passing(findings: &Vec<Finding>) -> (passing: bool)
    ensures
        passing == all_pass(findings@),
{
    let mut i: usize = 0;
    while i < findings.len()
        invariant
            i <= findings.len(),
            forall|j: int| 0 <= j < i ==> (#[trigger] findings@[j]).passes(),
        decreases findings.len() - i,
    {
        if !findings[i].is_passing() {
            return false;
        }
        i = i + 1;
    }
    true
}

/// The findings of a run, in the order in which they were made.
#[derive(Debug, PartialEq, Eq)]
pub struct EvaluationSummary {
    pub evaluation_results: Vec<Finding>,
}

impl View for EvaluationSummary {
    type V = Seq<Finding>;

    open spec fn view(&self) -> Seq<Finding> {
        self.evaluation_results@
    }
}

impl From<Vec<Finding>> for EvaluationSummary {
    fn from(evaluation_results: Vec<Finding>) -> (summary: Self) {
        EvaluationSummary { evaluation_results }
    }
}

impl vstd::std_specs::convert::FromSpecImpl<Vec<Finding>> for EvaluationSummary {
    open spec fn obeys_from_spec() -> bool {
        true
    }

    open spec fn from_spec(evaluation_results: Vec<Finding>) -> Self {
        EvaluationSummary { evaluation_results }
    }
}

} // verus!
