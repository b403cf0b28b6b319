//! The execution record: what is kept of one judged submission.

use crate::response::{RunResponse, RunResponseView};
use crate::stage::{BuildResult, BuildResultView, ExecutionResult, ExecutionResultView};
use crate::types::{Submission, SubmissionView};
use vstd::prelude::*;

verus! {

/// The instant `nanos` nanoseconds after the Unix epoch, written as an
/// RFC 3339 date and time in UTC.
pub uninterp spec fn rfc3339_text(nanos: i64) -> Seq<char>;

/// Writes an instant as chrono does: `DateTime::from_timestamp_nanos`, which
/// takes every `i64`, and then `DateTime::to_rfc3339`. The text is a function
/// of the instant alone.
#[verifier::external_body]
pub(crate) fn rfc3339(nanos: i64) -> (text: String)
    ensures
        text@ == rfc3339_text(nanos),
{
    chrono::DateTime::from_timestamp_nanos(nanos).to_rfc3339()
}

/// What is kept of one judged submission.
#[derive(Debug)]
pub struct ExecutionRecord {
    pub problem_id: i64,
    pub source_code: String,
    pub build: BuildResult,
    pub execution: Option<ExecutionResult>,
    pub passed: bool,
    pub output: String,
    pub created_at: String,
}

/// The model of an [`ExecutionRecord`].
pub struct ExecutionRecordView {
    pub problem_id: i64,
    pub source_code: Seq<char>,
    pub build: BuildResultView,
    pub execution: Option<ExecutionResultView>,
    pub passed: bool,
    pub output: Seq<char>,
    pub created_at: Seq<char>,
}

impl ExecutionRecordView {
    /// The record of `submission`: its stage results, the verdict and the
    /// output of `report`, and the time of writing.
    pub open spec fn assemble(
        submission: SubmissionView,
        build: BuildResultView,
        execution: Option<ExecutionResultView>,
        report: RunResponseView,
        created_at: Seq<char>,
    ) -> ExecutionRecordView {
        ExecutionRecordView {
            problem_id: submission.problem_id,
            source_code: submission.source_code,
            build,
            execution,
            passed: report.passed,
            output: report.output,
            created_at,
        }
    }
}

impl View for ExecutionRecord {
    type V = ExecutionRecordView;

    open spec fn view(&self) -> ExecutionRecordView {
        ExecutionRecordView {
            problem_id: self.problem_id,
            source_code: self.source_code@,
            build: self.build@,
            execution: self.execution.deep_view(),
            passed: self.passed,
            output: self.output@,
            created_at: self.created_at@,
        }
    }
}

impl DeepView for ExecutionRecord {
    type V = ExecutionRecordView;

    open spec fn deep_view(&self) -> ExecutionRecordView {
        self@
    }
}

impl ExecutionRecord {
    /// Puts together the record of one judged submission.
    pub fn assemble(
        submission: &Submission,
        build: BuildResult,
        execution: Option<ExecutionResult>,
        report: &RunResponse,
        created_at: String,
    ) -> (record: ExecutionRecord)
        ensures
            record@ == ExecutionRecordView::assemble(
                submission@,
                build@,
                execution.deep_view(),
                report@,
                created_at@,
            ),
    {
        ExecutionRecord {
            problem_id: submission.problem_id,
            source_code: submission.source_code.clone(),
            build,
            execution,
            passed: report.passed,
            output: report.output.clone(),
            created_at,
        }
    }
}

} // verus!
