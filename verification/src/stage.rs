//! What the build stage and the execution stage report.
//!
//! Neither stage runs anything here. Their callers start the compiler and the
//! program and say how each ended; these constructors classify the ending.

use crate::text::joined;
use vstd::prelude::*;

verus! {

/// How the build of one submission ended.
#[derive(Debug)]
pub struct BuildResult {
    pub succeeded: bool,
    pub diagnostics: String,
}

/// The model of a [`BuildResult`].
pub struct BuildResultView {
    pub succeeded: bool,
    pub diagnostics: Seq<char>,
}

impl BuildResultView {
    /// A build that produced no binary, and why.
    pub open spec fn failed(diagnostics: Seq<char>) -> BuildResultView {
        BuildResultView { succeeded: false, diagnostics }
    }

    /// The creation of the workspace failed with `cause`.
    pub open spec fn workspace_failed(cause: Seq<char>) -> BuildResultView {
        Self::failed("workspace error: "@ + cause)
    }

    /// Writing the source file failed with `cause`.
    pub open spec fn write_failed(cause: Seq<char>) -> BuildResultView {
        Self::failed("write error: "@ + cause)
    }

    /// The compiler could not be started, for `cause`.
    pub open spec fn spawn_failed(cause: Seq<char>) -> BuildResultView {
        Self::failed("spawn failed: "@ + cause)
    }

    /// The compiler ran and exited, with `diagnostics` on its standard error.
    /// A successful build keeps none of them.
    pub open spec fn compiler_exited(success: bool, diagnostics: Seq<char>) -> BuildResultView {
        if success {
            BuildResultView { succeeded: true, diagnostics: Seq::empty() }
        } else {
            Self::failed(diagnostics)
        }
    }
}

impl View for BuildResult {
    type V = BuildResultView;

    open spec fn view(&self) -> BuildResultView {
        BuildResultView { succeeded: self.succeeded, diagnostics: self.diagnostics@ }
    }
}

impl DeepView for BuildResult {
    type V = BuildResultView;

    open spec fn deep_view(&self) -> BuildResultView {
        self@
    }
}

impl Clone for BuildResult {
    fn clone(&self) -> (copy: Self)
        ensures
            copy@ == self@,
    {
        BuildResult { succeeded: self.succeeded, diagnostics: self.diagnostics.clone() }
    }
}

impl BuildResult {
    /// The workspace could not be created: nothing was written or compiled.
    pub fn workspace_failed(cause: &str) -> (result: BuildResult)
        ensures
            result@ == BuildResultView::workspace_failed(cause@),
    {
        BuildResult { succeeded: false, diagnostics: joined("workspace error: ", cause) }
    }

    /// The source file could not be written: the compiler was not started.
    pub fn write_failed(cause: &str) -> (result: BuildResult)
        ensures
            result@ == BuildResultView::write_failed(cause@),
    {
        BuildResult { succeeded: false, diagnostics: joined("write error: ", cause) }
    }

    /// The compiler could not be started.
    pub fn spawn_failed(cause: &str) -> (result: BuildResult)
        ensures
            result@ == BuildResultView::spawn_failed(cause@),
    {
        BuildResult { succeeded: false, diagnostics: joined("spawn failed: ", cause) }
    }

    /// The compiler exited, with or without success, and `diagnostics` is the
    /// text of its standard error.
    pub fn from_compiler_output(success: bool, diagnostics: String) -> (result: BuildResult)
        ensures
            result@ == BuildResultView::compiler_exited(success, diagnostics@),
    {
        if success {
            BuildResult { succeeded: true, diagnostics: String::new() }
        } else {
            BuildResult { succeeded: false, diagnostics }
        }
    }
}

/// How the run of one compiled submission ended.
#[derive(Debug)]
pub struct ExecutionResult {
    pub timed_out: bool,
    pub stdout: String,
    pub stderr: String,
    pub duration_ms: Option<u64>,
}

/// The model of an [`ExecutionResult`].
pub struct ExecutionResultView {
    pub timed_out: bool,
    pub stdout: Seq<char>,
    pub stderr: Seq<char>,
    pub duration_ms: Option<u64>,
}

impl ExecutionResultView {
    /// The program exited within the budget, after `elapsed_ms`.
    pub open spec fn completed(
        stdout: Seq<char>,
        stderr: Seq<char>,
        elapsed_ms: u64,
    ) -> ExecutionResultView {
        ExecutionResultView { timed_out: false, stdout, stderr, duration_ms: Some(elapsed_ms) }
    }

    /// The budget ran out first. What the program had printed is dropped.
    pub open spec fn timeout() -> ExecutionResultView {
        ExecutionResultView {
            timed_out: true,
            stdout: Seq::empty(),
            stderr: Seq::empty(),
            duration_ms: None,
        }
    }

    /// The program could not be started or waited for, for `cause`.
    pub open spec fn spawn_failed(cause: Seq<char>) -> ExecutionResultView {
        ExecutionResultView {
            timed_out: false,
            stdout: Seq::empty(),
            stderr: "exec error: "@ + cause,
            duration_ms: None,
        }
    }
}

impl View for ExecutionResult {
    type V = ExecutionResultView;

    open spec fn view(&self) -> ExecutionResultView {
        ExecutionResultView {
            timed_out: self.timed_out,
            stdout: self.stdout@,
            stderr: self.stderr@,
            duration_ms: self.duration_ms,
        }
    }
}

impl DeepView for ExecutionResult {
    type V = ExecutionResultView;

    open spec fn deep_view(&self) -> ExecutionResultView {
        self@
    }
}

impl Clone for ExecutionResult {
    fn clone(&self) -> (copy: Self)
        ensures
            copy@ == self@,
    {
        ExecutionResult {
            timed_out: self.timed_out,
            stdout: self.stdout.clone(),
            stderr: self.stderr.clone(),
            duration_ms: self.duration_ms,
        }
    }
}

impl ExecutionResult {
    /// The program exited within the budget; `stdout` and `stderr` are the
    /// texts of its two streams.
    pub fn completed(stdout: String, stderr: String, elapsed_ms: u64) -> (result: ExecutionResult)
        ensures
            result@ == ExecutionResultView::completed(stdout@, stderr@, elapsed_ms),
    {
        ExecutionResult { timed_out: false, stdout, stderr, duration_ms: Some(elapsed_ms) }
    }

    /// The budget ran out before the program exited.
    pub fn timeout() -> (result: ExecutionResult)
        ensures
            result@ == ExecutionResultView::timeout(),
    {
        ExecutionResult {
            timed_out: true,
            stdout: String::new(),
            stderr: String::new(),
            duration_ms: None,
        }
    }

    /// The program could not be started or waited for.
    pub fn spawn_failed(cause: &str) -> (result: ExecutionResult)
        ensures
            result@ == ExecutionResultView::spawn_failed(cause@),
    {
        ExecutionResult {
            timed_out: false,
            stdout: String::new(),
            stderr: joined("exec error: ", cause),
            duration_ms: None,
        }
    }
}

} // verus!
