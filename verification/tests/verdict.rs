use judge::response::{output_text, Response, RunResponse};
use judge::stage::{BuildResult, ExecutionResult};
use judge::text::joined;
use judge::types::{clone_rules, Problem, RuleKind, SourceRule, Submission};
use judge::verdict::{check_rule, check_rules, evaluate, stdout_matches, Verdict};

fn problem(expected: &str, rules: Vec<SourceRule>) -> Problem {
    Problem { id: 1, expected_stdout: expected.to_string(), source_rules: rules }
}

fn rule(kind: RuleKind, pattern: &str) -> SourceRule {
    SourceRule { kind, pattern: pattern.to_string() }
}

fn built() -> BuildResult {
    BuildResult::from_compiler_output(true, String::new())
}

fn ran(stdout: &str, stderr: &str) -> Option<ExecutionResult> {
    Some(ExecutionResult::completed(stdout.to_string(), stderr.to_string(), 12))
}

#[test]
fn stdout_matches_ignores_trailing_whitespace() {
    assert!(stdout_matches("Hello, world!\n", "Hello, world!\n"));
    assert!(stdout_matches("Hello, world!", "Hello, world!\n"));
    assert!(stdout_matches("Hello, world!\n\n  ", "Hello, world!"));
    assert!(stdout_matches("", ""));
    assert!(stdout_matches("  \n", ""));
}

#[test]
fn stdout_matches_unifies_line_endings_of_the_output() {
    assert!(stdout_matches("a\r\nb\r\n", "a\nb\n"));
    assert!(stdout_matches("a\r\nb", "a\nb"));
    assert!(!stdout_matches("a\rb", "a\nb"));
}

#[test]
fn stdout_matches_is_exact_otherwise() {
    assert!(!stdout_matches("hello, world!", "Hello, world!"));
    assert!(!stdout_matches(" Hello", "Hello"));
    assert!(!stdout_matches("Hello  world", "Hello world"));
    assert!(!stdout_matches("a\n\nb", "a\nb"));
    assert!(!stdout_matches("", "x"));
}

#[test]
fn check_rule_by_kind() {
    let source: Vec<char> = "fn main() { unsafe { } }".chars().collect();
    assert!(check_rule(&rule(RuleKind::MustContain, "unsafe"), &source));
    assert!(!check_rule(&rule(RuleKind::MustContain, "loop"), &source));
    assert!(!check_rule(&rule(RuleKind::MustNotContain, "unsafe"), &source));
    assert!(check_rule(&rule(RuleKind::MustNotContain, "loop"), &source));
    assert!(check_rule(&rule(RuleKind::Unrecognized, "unsafe"), &source));
    assert!(check_rule(&rule(RuleKind::Unrecognized, "loop"), &source));
}

#[test]
fn check_rules_is_a_conjunction() {
    let source = "fn main() { for i in 0..3 { println!(\"{}\", i); } }";
    assert!(check_rules(&vec![], source));
    let keeps = vec![
        rule(RuleKind::MustContain, "for"),
        rule(RuleKind::MustNotContain, "while"),
        rule(RuleKind::Unrecognized, "anything"),
    ];
    assert!(check_rules(&keeps, source));
    let breaks_first = vec![rule(RuleKind::MustContain, "while"), rule(RuleKind::MustContain, "for")];
    assert!(!check_rules(&breaks_first, source));
    let breaks_last = vec![rule(RuleKind::MustContain, "for"), rule(RuleKind::MustNotContain, "println")];
    assert!(!check_rules(&breaks_last, source));
}

#[test]
fn check_rules_does_not_depend_on_the_order() {
    let source = "let x = 1;";
    let a = rule(RuleKind::MustContain, "let");
    let b = rule(RuleKind::MustNotContain, "x");
    let c = rule(RuleKind::MustContain, "1");
    let one = vec![a.clone(), b.clone(), c.clone()];
    let two = vec![c, b, a];
    assert_eq!(check_rules(&one, source), check_rules(&two, source));
    assert!(!check_rules(&one, source));
}

#[test]
fn evaluate_passes_the_expected_output() {
    let p = problem("Hello, world!\n", vec![]);
    let verdict = evaluate(&built(), &ran("Hello, world!\n", ""), &p, "fn main() {}");
    assert_eq!(verdict, Verdict { passed: true });
}

#[test]
fn evaluate_fails_a_failed_build() {
    let p = problem("", vec![]);
    let build = BuildResult::from_compiler_output(false, "error: expected `;`".to_string());
    assert!(!evaluate(&build, &None, &p, "").passed);
    assert!(!evaluate(&build, &ran("", ""), &p, "").passed);
}

#[test]
fn evaluate_fails_a_timeout() {
    let p = problem("", vec![]);
    assert!(!evaluate(&built(), &Some(ExecutionResult::timeout()), &p, "").passed);
}

#[test]
fn evaluate_fails_without_a_run() {
    let p = problem("", vec![]);
    assert!(!evaluate(&built(), &None, &p, "").passed);
}

#[test]
fn evaluate_judges_a_failed_start_by_its_empty_output() {
    let run = Some(ExecutionResult::spawn_failed("permission denied"));
    assert!(evaluate(&built(), &run, &problem("", vec![]), "").passed);
    assert!(!evaluate(&built(), &run, &problem("x", vec![]), "").passed);
}

#[test]
fn evaluate_ignores_standard_error() {
    let p = problem("42\n", vec![]);
    assert!(evaluate(&built(), &ran("42\n", "warning: something"), &p, "").passed);
}

#[test]
fn evaluate_applies_the_rules_to_the_source() {
    let p = problem("ok\n", vec![rule(RuleKind::MustNotContain, "unsafe")]);
    assert!(!evaluate(&built(), &ran("ok\n", ""), &p, "fn main() { unsafe { } }").passed);
    assert!(evaluate(&built(), &ran("ok\n", ""), &p, "fn main() { }").passed);
    let q = problem("ok\n", vec![rule(RuleKind::MustContain, "match")]);
    assert!(!evaluate(&built(), &ran("ok\n", ""), &q, "fn main() { }").passed);
    assert!(evaluate(&built(), &ran("unsafe\n", ""), &problem("unsafe", vec![rule(RuleKind::MustNotContain, "unsafe")]), "fn main() {}").passed);
}

#[test]
fn build_results_carry_their_cause() {
    let r = BuildResult::write_failed("disk full");
    assert!(!r.succeeded);
    assert_eq!(r.diagnostics, "write error: disk full");
    let r = BuildResult::spawn_failed("No such file or directory");
    assert!(!r.succeeded);
    assert_eq!(r.diagnostics, "spawn failed: No such file or directory");
    let r = BuildResult::workspace_failed("read-only file system");
    assert!(!r.succeeded);
    assert_eq!(r.diagnostics, "workspace error: read-only file system");
    let r = BuildResult::from_compiler_output(false, "error[E0425]".to_string());
    assert!(!r.succeeded);
    assert_eq!(r.diagnostics, "error[E0425]");
    let r = BuildResult::from_compiler_output(true, "warning: unused".to_string());
    assert!(r.succeeded);
    assert_eq!(r.diagnostics, "");
}

#[test]
fn execution_results_by_outcome() {
    let r = ExecutionResult::completed("out".to_string(), "err".to_string(), 7);
    assert!(!r.timed_out);
    assert_eq!(r.stdout, "out");
    assert_eq!(r.stderr, "err");
    assert_eq!(r.duration_ms, Some(7));
    let r = ExecutionResult::timeout();
    assert!(r.timed_out);
    assert_eq!(r.stdout, "");
    assert_eq!(r.stderr, "");
    assert_eq!(r.duration_ms, None);
    let r = ExecutionResult::spawn_failed("Permission denied (os error 13)");
    assert!(!r.timed_out);
    assert_eq!(r.stdout, "");
    assert_eq!(r.stderr, "exec error: Permission denied (os error 13)");
    assert_eq!(r.duration_ms, None);
}

#[test]
fn joined_puts_the_second_text_behind_the_first() {
    assert_eq!(joined("", ""), "");
    assert_eq!(joined("a: ", "b"), "a: b");
    assert_eq!(joined("x", ""), "x");
}

#[test]
fn output_text_by_case() {
    assert_eq!(output_text(true, false, "out\n", ""), "out\n");
    assert_eq!(output_text(true, false, "out\n", "err\n"), "out\nerr\n");
    assert_eq!(output_text(true, false, "", "err\n"), "err\n");
    assert_eq!(output_text(true, true, "", ""), "Time limit exceeded");
    assert_eq!(output_text(true, true, "partial", "noise"), "Time limit exceeded");
    assert_eq!(output_text(false, false, "", "error: x"), "error: x");
    assert_eq!(output_text(false, false, "ignored", "error: x"), "error: x");
}

#[test]
fn report_of_a_run() {
    let r = RunResponse::assemble(&built(), &ran("a\n", "b\n"), Verdict { passed: true });
    assert!(r.compiled);
    assert!(!r.timed_out);
    assert_eq!(r.stdout, "a\n");
    assert_eq!(r.stderr, "b\n");
    assert!(r.passed);
    assert_eq!(r.output, "a\nb\n");
}

#[test]
fn report_of_a_failed_build() {
    let build = BuildResult::from_compiler_output(false, "error: boom".to_string());
    let r = RunResponse::assemble(&build, &None, Verdict { passed: false });
    assert!(!r.compiled);
    assert!(!r.timed_out);
    assert_eq!(r.stdout, "");
    assert_eq!(r.stderr, "error: boom");
    assert!(!r.passed);
    assert_eq!(r.output, "error: boom");
}

#[test]
fn report_of_a_timeout() {
    let r = RunResponse::assemble(&built(), &Some(ExecutionResult::timeout()), Verdict { passed: false });
    assert!(r.compiled);
    assert!(r.timed_out);
    assert_eq!(r.stdout, "");
    assert_eq!(r.stderr, "");
    assert_eq!(r.output, "Time limit exceeded");
}

#[test]
fn report_without_a_run() {
    let r = RunResponse::assemble(&built(), &None, Verdict { passed: false });
    assert!(r.compiled);
    assert!(!r.timed_out);
    assert_eq!(r.stdout, "");
    assert_eq!(r.stderr, "");
    assert_eq!(r.output, "");
}

#[test]
fn judge_reports_the_verdict() {
    let p = problem("7\n", vec![rule(RuleKind::MustContain, "+")]);
    let r = RunResponse::judge(&built(), &ran("7\r\n", ""), &p, "fn main() { println!(\"{}\", 3 + 4); }");
    assert!(r.passed);
    assert_eq!(r.stdout, "7\r\n");
    assert_eq!(r.output, "7\r\n");
    let r = RunResponse::judge(&built(), &ran("7\n", ""), &p, "fn main() { println!(\"7\"); }");
    assert!(!r.passed);
}

#[test]
fn answers_to_a_failed_lookup() {
    match Response::unknown_problem() {
        Response::Rejected(text) => assert_eq!(text, "invalid problem_id"),
        other => panic!("{:?}", other),
    }
    match Response::lookup_failed("pool timed out") {
        Response::Failed(text) => assert_eq!(text, "db error: pool timed out"),
        other => panic!("{:?}", other),
    }
}

#[test]
fn status_by_kind_of_answer() {
    assert_eq!(Response::unknown_problem().status(), 400);
    assert_eq!(Response::lookup_failed("x").status(), 500);
    let build = BuildResult::from_compiler_output(false, "error".to_string());
    let report = RunResponse::assemble(&build, &None, Verdict { passed: false });
    assert_eq!(Response::Completed(report).status(), 200);
    let report = RunResponse::assemble(&built(), &Some(ExecutionResult::timeout()), Verdict { passed: false });
    assert_eq!(Response::Completed(report).status(), 200);
}

#[test]
fn copies_hold_what_was_copied() {
    let p = problem("x", vec![rule(RuleKind::MustContain, "a"), rule(RuleKind::Unrecognized, "b")]);
    let q = p.clone();
    assert_eq!(q.id, p.id);
    assert_eq!(q.expected_stdout, p.expected_stdout);
    assert_eq!(q.source_rules.len(), 2);
    assert_eq!(q.source_rules[0].kind, RuleKind::MustContain);
    assert_eq!(q.source_rules[0].pattern, "a");
    assert_eq!(q.source_rules[1].kind, RuleKind::Unrecognized);
    assert_eq!(q.source_rules[1].pattern, "b");
    let rules = clone_rules(&p.source_rules);
    assert_eq!(rules.len(), 2);
    assert_eq!(rules[1].pattern, "b");
    let s = Submission { problem_id: 3, source_code: "code".to_string() };
    let t = s.clone();
    assert_eq!(t.problem_id, 3);
    assert_eq!(t.source_code, "code");
    let b = BuildResult::write_failed("x").clone();
    assert_eq!(b.diagnostics, "write error: x");
    let e = ExecutionResult::completed("o".to_string(), "e".to_string(), 1).clone();
    assert_eq!(e.stdout, "o");
    assert_eq!(e.duration_ms, Some(1));
    let r = RunResponse::assemble(&built(), &ran("a", "b"), Verdict { passed: true }).clone();
    assert_eq!(r.output, "ab");
    assert!(r.passed);
}

#[test]
fn rule_kinds_by_name() {
    assert_eq!(RuleKind::named("MustContain"), RuleKind::MustContain);
    assert_eq!(RuleKind::named("MustNotContain"), RuleKind::MustNotContain);
    assert_eq!(RuleKind::named("MustMatch"), RuleKind::Unrecognized);
    assert_eq!(RuleKind::named("mustcontain"), RuleKind::Unrecognized);
    assert_eq!(RuleKind::named("MustContain "), RuleKind::Unrecognized);
    assert_eq!(RuleKind::named(""), RuleKind::Unrecognized);
}

#[test]
fn rule_of_an_unknown_kind_asks_nothing() {
    let p = problem("ok", vec![rule(RuleKind::named("MustCompileWithoutWarnings"), "anything")]);
    assert!(evaluate(&built(), &ran("ok", ""), &p, "fn main() {}").passed);
}
