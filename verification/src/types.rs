//! What a request brings and what the catalog says about a problem.

use crate::text::same_text;
use vstd::prelude::*;

verus! {

/// What a source rule asks of the submitted source.
#[derive(Clone, Copy, Debug, PartialEq, Eq, Structural)]
pub enum RuleKind {
    /// The pattern has to occur in the source.
    MustContain,
    /// The pattern may not occur in the source.
    MustNotContain,
    /// A kind this judge does not know; such a rule asks nothing.
    Unrecognized,
}

impl RuleKind {
    /// The kind that the catalog writes as `name`. A name that is not known
    /// here stands for a kind of a later day.
    pub open spec fn of_name(name: Seq<char>) -> RuleKind {
        if name == "MustContain"@ {
            RuleKind::MustContain
        } else if name == "MustNotContain"@ {
            RuleKind::MustNotContain
        } else {
            RuleKind::Unrecognized
        }
    }

    /// Computes [`of_name`](Self::of_name).
    pub fn named(name: &str) -> (kind: RuleKind)
        ensures
            kind == Self::of_name(name@),
    {
        if same_text(name, "MustContain") {
            RuleKind::MustContain
        } else if same_text(name, "MustNotContain") {
            RuleKind::MustNotContain
        } else {
            RuleKind::Unrecognized
        }
    }
}

/// A constraint on the text of a submission, whatever the program prints.
#[derive(Debug)]
pub struct SourceRule {
    pub kind: RuleKind,
    pub pattern: String,
}

/// The model of a [`SourceRule`].
pub struct SourceRuleView {
    pub kind: RuleKind,
    pub pattern: Seq<char>,
}

impl View for SourceRule {
    type V = SourceRuleView;

    open spec fn view(&self) -> SourceRuleView {
        SourceRuleView { kind: self.kind, pattern: self.pattern@ }
    }
}

impl DeepView for SourceRule {
    type V = SourceRuleView;

    open spec fn deep_view(&self) -> SourceRuleView {
        self@
    }
}

impl Clone for SourceRule {
    fn clone(&self) -> (copy: Self)
        ensures
            copy@ == self@,
    {
        SourceRule { kind: self.kind, pattern: self.pattern.clone() }
    }
}

/// One exercise of the catalog, as far as the judge reads it.
#[derive(Debug)]
pub struct Problem {
    pub id: i64,
    pub expected_stdout: String,
    pub source_rules: Vec<SourceRule>,
}

/// The model of a [`Problem`].
pub struct ProblemView {
    pub id: i64,
    pub expected_stdout: Seq<char>,
    pub source_rules: Seq<SourceRuleView>,
}

impl View for Problem {
    type V = ProblemView;

    open spec fn view(&self) -> ProblemView {
        ProblemView {
            id: self.id,
            expected_stdout: self.expected_stdout@,
            source_rules: self.source_rules.deep_view(),
        }
    }
}

impl DeepView for Problem {
    type V = ProblemView;

    open spec fn deep_view(&self) -> ProblemView {
        self@
    }
}

/// A copy of `rules`, rule by rule.
pub fn clone_rules(rules: &Vec<SourceRule>) -> (copy: Vec<SourceRule>)
    ensures
        copy.deep_view() == rules.deep_view(),
{
    let mut copy: Vec<SourceRule> = Vec::new();
    let mut i: usize = 0;
    while i < rules.len()
        invariant
            i <= rules.len(),
            copy.len() == i,
            forall|j: int| 0 <= j < i ==> copy@[j]@ == rules@[j]@,
        decreases rules.len() - i,
    {
        copy.push(rules[i].clone());
        i += 1;
    }
    assert(copy.deep_view() =~= rules.deep_view());
    copy
}

impl Clone for Problem {
    fn clone(&self) -> (copy: Self)
        ensures
            copy@ == self@,
    {
        Problem {
            id: self.id,
            expected_stdout: self.expected_stdout.clone(),
            source_rules: clone_rules(&self.source_rules),
        }
    }
}

/// What a learner sends: the problem it answers and the program text.
#[derive(Debug)]
pub struct Submission {
    pub problem_id: i64,
    pub source_code: String,
}

/// The model of a [`Submission`].
pub struct SubmissionView {
    pub problem_id: i64,
    pub source_code: Seq<char>,
}

impl View for Submission {
    type V = SubmissionView;

    open spec fn view(&self) -> SubmissionView {
        SubmissionView { problem_id: self.problem_id, source_code: self.source_code@ }
    }
}

impl DeepView for Submission {
    type V = SubmissionView;

    open spec fn deep_view(&self) -> SubmissionView {
        self@
    }
}

impl Clone for Submission {
    fn clone(&self) -> (copy: Self)
        ensures
            copy@ == self@,
    {
        Submission { problem_id: self.problem_id, source_code: self.source_code.clone() }
    }
}

} // verus!
