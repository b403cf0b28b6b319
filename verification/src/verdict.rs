//! Judging a submission.
//!
//! A submission passes when it was built, ran to its end within the budget,
//! printed the expected text and keeps every source rule of the problem.

use crate::stage::{BuildResult, BuildResultView, ExecutionResult, ExecutionResultView};
use crate::text::{
    contains, has_part, same_prefix, to_chars, trim_end, trimmed_length, unified_line_endings,
    unify_line_endings,
};
use crate::types::{Problem, ProblemView, RuleKind, SourceRule, SourceRuleView};
use vstd::prelude::*;

verus! {

/// The outcome of judging one submission.
#[derive(Clone, Copy, Debug, PartialEq, Eq, Structural)]
pub struct Verdict {
    pub passed: bool,
}

/// Whether what a program printed counts as the expected text: line endings
/// are unified in the printed text, and trailing white space counts on
/// neither side.
pub open spec fn output_matches(stdout: Seq<char>, expected: Seq<char>) -> bool {
    trim_end(unify_line_endings(stdout)) == trim_end(expected)
}

/// Whether `source` keeps `rule`.
pub open spec fn rule_holds(rule: SourceRuleView, source: Seq<char>) -> bool {
    match rule.kind {
        RuleKind::MustContain => contains(source, rule.pattern),
        RuleKind::MustNotContain => !contains(source, rule.pattern),
        RuleKind::Unrecognized => true,
    }
}

/// Whether `source` keeps every one of `rules`.
pub open spec fn rules_hold(rules: Seq<SourceRuleView>, source: Seq<char>) -> bool {
    forall|i: int| 0 <= i < rules.len() ==> rule_holds(#[trigger] rules[i], source)
}

/// Whether a submission with these stage results passes `problem`.
pub open spec fn passes(
    build: BuildResultView,
    execution: Option<ExecutionResultView>,
    problem: ProblemView,
    source: Seq<char>,
) -> bool {
    &&& build.succeeded
    &&& execution matches Some(run)
    &&& !run.timed_out
    &&& output_matches(run.stdout, problem.expected_stdout)
    &&& rules_hold(problem.source_rules, source)
}

/// Decides [`output_matches`].
pub fn stdout_matches(stdout: &str, expected: &str) -> (same: bool)
    ensures
        same == output_matches(stdout@, expected@),
{
    let printed = to_chars(stdout);
    let unified = unified_line_endings(printed.as_slice());
    let wanted = to_chars(expected);
    let printed_len = trimmed_length(unified.as_slice());
    let wanted_len = trimmed_length(wanted.as_slice());
    same_prefix(unified.as_slice(), printed_len, wanted.as_slice(), wanted_len)
}

/// Decides [`rule_holds`] for a source given as characters.
pub fn check_rule(rule: &SourceRule, source: &[char]) -> (kept: bool)
    ensures
        kept == rule_holds(rule@, source@),
{
    match rule.kind {
        RuleKind::MustContain => {
            let pattern = to_chars(rule.pattern.as_str());
            has_part(source, pattern.as_slice())
        },
        RuleKind::MustNotContain => {
            let pattern = to_chars(rule.pattern.as_str());
            !has_part(source, pattern.as_slice())
        },
        RuleKind::Unrecognized => true,
    }
}

/// Decides [`rules_hold`], stopping at the first rule that `source` breaks.
pub fn check_rules(rules: &Vec<SourceRule>, source: &str) -> (kept: bool)
    ensures
        kept == rules_hold(rules.deep_view(), source@),
{
    if rules.len() == 0 {
        return true;
    }
    let text = to_chars(source);
    let mut i: usize = 0;
    while i < rules.len()
        invariant
            i <= rules.len(),
            text@ == source@,
            forall|j: int| 0 <= j < i ==> rule_holds(#[trigger] rules.deep_view()[j], source@),
        decreases rules.len() - i,
    {
        if !check_rule(&rules[i], text.as_slice()) {
            assert(!rule_holds(rules.deep_view()[i as int], source@));
            return false;
        }
        i += 1;
    }
    true
}

/// Judges one submission from its stage results.
///
/// A failed build and a timeout fail the submission without a look at the
/// output. Otherwise the printed text and the source rules decide, whatever
/// the program's exit status or standard error were.
pub fn evaluate(
    build: &BuildResult,
    execution: &Option<ExecutionResult>,
    problem: &Problem,
    source: &str,
) -> (verdict: Verdict)
    ensures
        verdict.passed == passes(build@, execution.deep_view(), problem@, source@),
{
    if !build.succeeded {
        return Verdict { passed: false };
    }
    match execution {
        None => Verdict { passed: false },
        Some(run) => {
            if run.timed_out {
                Verdict { passed: false }
            } else {
                let passed = stdout_matches(run.stdout.as_str(), problem.expected_stdout.as_str())
                    && check_rules(&problem.source_rules, source);
                Verdict { passed }
            }
        },
    }
}

/// A program that prints the expected text, up to line endings, and keeps
/// every source rule passes, provided it was built and did not time out.
pub proof fn lemma_expected_output_passes(
    build: BuildResultView,
    run: ExecutionResultView,
    problem: ProblemView,
    source: Seq<char>,
)
    requires
        build.succeeded,
        !run.timed_out,
        unify_line_endings(run.stdout) == problem.expected_stdout,
        rules_hold(problem.source_rules, source),
    ensures
        passes(build, Some(run), problem, source),
{
}

/// A program that prints the expected text character for character passes,
/// where that text holds no carriage return, provided it was built, did not
/// time out and keeps every source rule.
pub proof fn lemma_same_output_passes(
    build: BuildResultView,
    run: ExecutionResultView,
    problem: ProblemView,
    source: Seq<char>,
)
    requires
        build.succeeded,
        !run.timed_out,
        run.stdout == problem.expected_stdout,
        forall|i: int| 0 <= i < problem.expected_stdout.len() ==> problem.expected_stdout[i] != '\r',
        rules_hold(problem.source_rules, source),
    ensures
        passes(build, Some(run), problem, source),
{
    crate::text::lemma_unify_without_cr(run.stdout);
}

/// A failed build fails the submission, whatever else is known of it.
pub proof fn lemma_failed_build_fails(
    build: BuildResultView,
    execution: Option<ExecutionResultView>,
    problem: ProblemView,
    source: Seq<char>,
)
    requires
        !build.succeeded,
    ensures
        !passes(build, execution, problem, source),
{
}

/// A timeout fails the submission, whatever else is known of it.
pub proof fn lemma_timeout_fails(
    build: BuildResultView,
    run: ExecutionResultView,
    problem: ProblemView,
    source: Seq<char>,
)
    requires
        run.timed_out,
    ensures
        !passes(build, Some(run), problem, source),
{
}

/// A rule that forbids a pattern fails every submission whose source holds
/// the pattern, whatever the program prints.
pub proof fn lemma_forbidden_pattern_fails(
    build: BuildResultView,
    execution: Option<ExecutionResultView>,
    problem: ProblemView,
    source: Seq<char>,
    i: int,
)
    requires
        0 <= i < problem.source_rules.len(),
        problem.source_rules[i].kind == RuleKind::MustNotContain,
        contains(source, problem.source_rules[i].pattern),
    ensures
        !passes(build, execution, problem, source),
{
    assert(!rule_holds(problem.source_rules[i], source));
}

} // verus!
