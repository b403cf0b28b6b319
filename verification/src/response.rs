//! What the caller gets back for one submission.

use crate::stage::{BuildResult, BuildResultView, ExecutionResult, ExecutionResultView};
use crate::text::joined;
use crate::types::{Problem, ProblemView};
use crate::verdict::{evaluate, passes, Verdict};
use vstd::prelude::*;
use vstd::string::StringExecFns;

verus! {

/// The text shown to the learner: the fixed message after a timeout, what the
/// program printed on both streams after a run, the diagnostics after a
/// failed build.
pub open spec fn compose_output(
    compiled: bool,
    timed_out: bool,
    stdout: Seq<char>,
    stderr: Seq<char>,
) -> Seq<char> {
    if timed_out {
        "Time limit exceeded"@
    } else if compiled {
        stdout + stderr
    } else {
        stderr
    }
}

/// Computes [`compose_output`].
pub fn output_text(compiled: bool, timed_out: bool, stdout: &str, stderr: &str) -> (output: String)
    ensures
        output@ == compose_output(compiled, timed_out, stdout@, stderr@),
{
    if timed_out {
        String::from_str("Time limit exceeded")
    } else if compiled {
        joined(stdout, stderr)
    } else {
        String::from_str(stderr)
    }
}

/// The report on one judged submission.
#[derive(Debug)]
pub struct RunResponse {
    pub compiled: bool,
    pub timed_out: bool,
    pub stdout: String,
    pub stderr: String,
    pub passed: bool,
    pub output: String,
}

/// The model of a [`RunResponse`].
pub struct RunResponseView {
    pub compiled: bool,
    pub timed_out: bool,
    pub stdout: Seq<char>,
    pub stderr: Seq<char>,
    pub passed: bool,
    pub output: Seq<char>,
}

impl RunResponseView {
    /// The report on a submission with these stage results and this verdict.
    /// After a failed build the diagnostics stand for the standard error, and
    /// nothing of a run is reported.
    pub open spec fn assemble(
        build: BuildResultView,
        execution: Option<ExecutionResultView>,
        passed: bool,
    ) -> RunResponseView {
        let timed_out = build.succeeded && execution is Some && execution->0.timed_out;
        let stdout = if build.succeeded && execution is Some {
            execution->0.stdout
        } else {
            Seq::empty()
        };
        let stderr = if !build.succeeded {
            build.diagnostics
        } else if execution is Some {
            execution->0.stderr
        } else {
            Seq::empty()
        };
        RunResponseView {
            compiled: build.succeeded,
            timed_out,
            stdout,
            stderr,
            passed,
            output: compose_output(build.succeeded, timed_out, stdout, stderr),
        }
    }

    /// The report on a submission with these stage results, judged against
    /// `problem`.
    pub open spec fn judge(
        build: BuildResultView,
        execution: Option<ExecutionResultView>,
        problem: ProblemView,
        source: Seq<char>,
    ) -> RunResponseView {
        Self::assemble(build, execution, passes(build, execution, problem, source))
    }
}

impl RunResponseView {
    /// What holds of every report on a judged submission: the output is
    /// composed of the other fields, only a program that was built and ran to
    /// its end passes, and without a build nothing of a run is reported.
    pub open spec fn well_formed(self) -> bool {
        &&& self.output == compose_output(self.compiled, self.timed_out, self.stdout, self.stderr)
        &&& self.passed ==> self.compiled && !self.timed_out
        &&& self.timed_out ==> self.compiled
        &&& !self.compiled ==> self.stdout == Seq::<char>::empty()
    }
}

/// Every report that [`RunResponseView::judge`] makes is well formed.
pub proof fn lemma_judged_is_well_formed(
    build: BuildResultView,
    execution: Option<ExecutionResultView>,
    problem: ProblemView,
    source: Seq<char>,
)
    ensures
        RunResponseView::judge(build, execution, problem, source).well_formed(),
{
}

impl View for RunResponse {
    type V = RunResponseView;

    open spec fn view(&self) -> RunResponseView {
        RunResponseView {
            compiled: self.compiled,
            timed_out: self.timed_out,
            stdout: self.stdout@,
            stderr: self.stderr@,
            passed: self.passed,
            output: self.output@,
        }
    }
}

impl DeepView for RunResponse {
    type V = RunResponseView;

    open spec fn deep_view(&self) -> RunResponseView {
        self@
    }
}

impl Clone for RunResponse {
    fn clone(&self) -> (copy: Self)
        ensures
            copy@ == self@,
    {
        RunResponse {
            compiled: self.compiled,
            timed_out: self.timed_out,
            stdout: self.stdout.clone(),
            stderr: self.stderr.clone(),
            passed: self.passed,
            output: self.output.clone(),
        }
    }
}

impl RunResponse {
    /// Puts the stage results and the verdict into one report.
    pub fn assemble(
        build: &BuildResult,
        execution: &Option<ExecutionResult>,
        verdict: Verdict,
    ) -> (response: RunResponse)
        ensures
            response@ == RunResponseView::assemble(build@, execution.deep_view(), verdict.passed),
    {
        if !build.succeeded {
            let stderr = build.diagnostics.clone();
            let output = build.diagnostics.clone();
            return RunResponse {
                compiled: false,
                timed_out: false,
                stdout: String::new(),
                stderr,
                passed: verdict.passed,
                output,
            };
        }
        match execution {
            Some(run) => {
                let output = output_text(true, run.timed_out, run.stdout.as_str(), run.stderr.as_str());
                RunResponse {
                    compiled: true,
                    timed_out: run.timed_out,
                    stdout: run.stdout.clone(),
                    stderr: run.stderr.clone(),
                    passed: verdict.passed,
                    output,
                }
            },
            None => {
                let output = String::new();
                assert(output@ =~= compose_output(true, false, Seq::empty(), Seq::empty()));
                RunResponse {
                    compiled: true,
                    timed_out: false,
                    stdout: String::new(),
                    stderr: String::new(),
                    passed: verdict.passed,
                    output,
                }
            },
        }
    }

    /// Judges a submission and reports on it.
    pub fn judge(
        build: &BuildResult,
        execution: &Option<ExecutionResult>,
        problem: &Problem,
        source: &str,
    ) -> (response: RunResponse)
        ensures
            response@ == RunResponseView::judge(build@, execution.deep_view(), problem@, source@),
    {
        let verdict = evaluate(build, execution, problem, source);
        Self::assemble(build, execution, verdict)
    }
}

/// The answer to one request.
#[derive(Debug)]
pub enum Response {
    /// The submission was judged; the report says how it went.
    Completed(RunResponse),
    /// The request is at fault, and the text says how.
    Rejected(String),
    /// The catalog could not be read, and the text says why.
    Failed(String),
}

/// The model of a [`Response`].
pub enum ResponseView {
    Completed(RunResponseView),
    Rejected(Seq<char>),
    Failed(Seq<char>),
}

impl ResponseView {
    /// The answer to a request that names no problem of the catalog.
    pub open spec fn unknown_problem() -> ResponseView {
        ResponseView::Rejected("invalid problem_id"@)
    }

    /// The answer when the catalog could not be read, for `cause`.
    pub open spec fn lookup_failed(cause: Seq<char>) -> ResponseView {
        ResponseView::Failed("db error: "@ + cause)
    }
}

impl ResponseView {
    /// The HTTP status that goes with the answer: a judged submission is a
    /// success however it went, a request at fault is a client error, and a
    /// catalog that cannot be read is a server error.
    pub open spec fn status(self) -> u16 {
        match self {
            ResponseView::Completed(_) => 200,
            ResponseView::Rejected(_) => 400,
            ResponseView::Failed(_) => 500,
        }
    }
}

impl View for Response {
    type V = ResponseView;

    open spec fn view(&self) -> ResponseView {
        match self {
            Response::Completed(report) => ResponseView::Completed(report@),
            Response::Rejected(text) => ResponseView::Rejected(text@),
            Response::Failed(text) => ResponseView::Failed(text@),
        }
    }
}

impl DeepView for Response {
    type V = ResponseView;

    open spec fn deep_view(&self) -> ResponseView {
        self@
    }
}

impl Response {
    /// The answer to a request that names no problem of the catalog.
    pub fn unknown_problem() -> (response: Response)
        ensures
            response@ == ResponseView::unknown_problem(),
    {
        Response::Rejected(String::from_str("invalid problem_id"))
    }

    /// The HTTP status that goes with the answer.
    pub fn status(&self) -> (code: u16)
        ensures
            code == self@.status(),
    {
        match self {
            Response::Completed(_) => 200,
            Response::Rejected(_) => 400,
            Response::Failed(_) => 500,
        }
    }

    /// The answer when the catalog could not be read.
    pub fn lookup_failed(cause: &str) -> (response: Response)
        ensures
            response@ == ResponseView::lookup_failed(cause@),
    {
        Response::Failed(joined("db error: ", cause))
    }
}

} // verus!
