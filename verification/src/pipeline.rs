//! The pipeline of one request, as a machine that decides and never acts.
//!
//! The caller performs each [`Action`] (reads the catalog, touches the disk,
//! starts a process, reads the clock, writes the record) and reports how it
//! ended as an [`Event`]. The machine says what to do next. It ends with
//! [`Action::Respond`].

use crate::record::{rfc3339, rfc3339_text, ExecutionRecord, ExecutionRecordView};
use crate::response::{Response, ResponseView, RunResponse, RunResponseView};
use crate::stage::{BuildResult, BuildResultView, ExecutionResult, ExecutionResultView};
use crate::text::{decode_lossy, lossy_text};
use crate::types::{Problem, ProblemView, Submission, SubmissionView};
use crate::workspace::{Workspace, WorkspaceView};
use vstd::prelude::*;
use vstd::utf8::{decode_utf8, valid_utf8};

verus! {

/// How long a submitted program may run, in milliseconds. No request can
/// change it.
pub const EXECUTION_BUDGET_MS: u64 = 2000;

/// How an action ended.
#[derive(Debug)]
pub enum Event {
    /// The catalog holds the problem.
    ProblemFound(Problem),
    /// The catalog holds no problem of that id.
    ProblemMissing,
    /// The catalog could not be read.
    LookupFailed(String),
    /// The workspace directory exists now.
    WorkspaceCreated,
    /// The workspace directory could not be created.
    WorkspaceFailed(String),
    /// The source file is written.
    SourceWritten,
    /// The source file could not be written.
    WriteFailed(String),
    /// The compiler ran and exited; `diagnostics` is its standard error.
    CompilerExited { success: bool, diagnostics: String },
    /// The compiler could not be started.
    CompilerNotStarted(String),
    /// The program exited within the budget.
    ProgramExited { stdout: String, stderr: String, elapsed_ms: u64 },
    /// The budget ran out, and the program and its descendants were killed.
    ProgramTimedOut,
    /// The program could not be started or waited for.
    ProgramNotStarted(String),
    /// The clock was read; `timestamp` is the instant as text.
    ClockRead { timestamp: String },
    /// The record is written.
    RecordStored,
    /// The record could not be written.
    RecordFailed,
    /// The workspace directory is gone.
    WorkspaceRemoved,
    /// The workspace directory could not be removed.
    WorkspaceNotRemoved,
}

/// The model of an [`Event`].
pub enum EventView {
    ProblemFound(ProblemView),
    ProblemMissing,
    LookupFailed(Seq<char>),
    WorkspaceCreated,
    WorkspaceFailed(Seq<char>),
    SourceWritten,
    WriteFailed(Seq<char>),
    CompilerExited { success: bool, diagnostics: Seq<char> },
    CompilerNotStarted(Seq<char>),
    ProgramExited { stdout: Seq<char>, stderr: Seq<char>, elapsed_ms: u64 },
    ProgramTimedOut,
    ProgramNotStarted(Seq<char>),
    ClockRead { timestamp: Seq<char> },
    RecordStored,
    RecordFailed,
    WorkspaceRemoved,
    WorkspaceNotRemoved,
}

impl View for Event {
    type V = EventView;

    open spec fn view(&self) -> EventView {
        match self {
            Event::ProblemFound(problem) => EventView::ProblemFound(problem@),
            Event::ProblemMissing => EventView::ProblemMissing,
            Event::LookupFailed(cause) => EventView::LookupFailed(cause@),
            Event::WorkspaceCreated => EventView::WorkspaceCreated,
            Event::WorkspaceFailed(cause) => EventView::WorkspaceFailed(cause@),
            Event::SourceWritten => EventView::SourceWritten,
            Event::WriteFailed(cause) => EventView::WriteFailed(cause@),
            Event::CompilerExited { success, diagnostics } => EventView::CompilerExited {
                success: *success,
                diagnostics: diagnostics@,
            },
            Event::CompilerNotStarted(cause) => EventView::CompilerNotStarted(cause@),
            Event::ProgramExited { stdout, stderr, elapsed_ms } => EventView::ProgramExited {
                stdout: stdout@,
                stderr: stderr@,
                elapsed_ms: *elapsed_ms,
            },
            Event::ProgramTimedOut => EventView::ProgramTimedOut,
            Event::ProgramNotStarted(cause) => EventView::ProgramNotStarted(cause@),
            Event::ClockRead { timestamp } => EventView::ClockRead { timestamp: timestamp@ },
            Event::RecordStored => EventView::RecordStored,
            Event::RecordFailed => EventView::RecordFailed,
            Event::WorkspaceRemoved => EventView::WorkspaceRemoved,
            Event::WorkspaceNotRemoved => EventView::WorkspaceNotRemoved,
        }
    }
}

impl Event {
    /// The compiler exited, and `stderr` holds the bytes of its standard
    /// error. They are decoded leniently: well-formed UTF-8 gives the text
    /// that it encodes, and anything else still gives a text.
    pub fn compiler_exited(success: bool, stderr: &[u8]) -> (event: Event)
        ensures
            event@ == (EventView::CompilerExited { success, diagnostics: lossy_text(stderr@) }),
            valid_utf8(stderr@) ==> lossy_text(stderr@) == decode_utf8(stderr@),
    {
        Event::CompilerExited { success, diagnostics: decode_lossy(stderr) }
    }

    /// The program exited within the budget; `stdout` and `stderr` hold the
    /// bytes of its two streams, which are decoded leniently.
    pub fn program_exited(stdout: &[u8], stderr: &[u8], elapsed_ms: u64) -> (event: Event)
        ensures
            event@ == (EventView::ProgramExited {
                stdout: lossy_text(stdout@),
                stderr: lossy_text(stderr@),
                elapsed_ms,
            }),
            valid_utf8(stdout@) ==> lossy_text(stdout@) == decode_utf8(stdout@),
            valid_utf8(stderr@) ==> lossy_text(stderr@) == decode_utf8(stderr@),
    {
        Event::ProgramExited {
            stdout: decode_lossy(stdout),
            stderr: decode_lossy(stderr),
            elapsed_ms,
        }
    }

    /// The clock was read, and showed `nanos` nanoseconds after the Unix
    /// epoch.
    pub fn clock_read(nanos: i64) -> (event: Event)
        ensures
            event@ == (EventView::ClockRead { timestamp: rfc3339_text(nanos) }),
    {
        Event::ClockRead { timestamp: rfc3339(nanos) }
    }
}

/// What the caller is to do next.
#[derive(Debug)]
pub enum Action {
    /// Look the problem up in the catalog.
    FetchProblem { id: i64 },
    /// Create the workspace directory, and what is missing above it.
    CreateWorkspace { dir: String },
    /// Write the submitted source to the source file.
    WriteSource { path: String, contents: String },
    /// Compile the source file, with optimisation, into the binary.
    Compile { source: String, binary: String },
    /// Run the binary without arguments or input, for `budget_ms` at most.
    Run { binary: String, budget_ms: u64 },
    /// Read the clock.
    ReadClock,
    /// Hand the record to the store.
    StoreRecord(ExecutionRecord),
    /// Remove the workspace directory and what is in it.
    RemoveWorkspace { dir: String },
    /// Answer the request. Nothing follows.
    Respond(Response),
}

/// The model of an [`Action`].
pub enum ActionView {
    FetchProblem { id: i64 },
    CreateWorkspace { dir: Seq<char> },
    WriteSource { path: Seq<char>, contents: Seq<char> },
    Compile { source: Seq<char>, binary: Seq<char> },
    Run { binary: Seq<char>, budget_ms: u64 },
    ReadClock,
    StoreRecord(ExecutionRecordView),
    RemoveWorkspace { dir: Seq<char> },
    Respond(ResponseView),
}

impl View for Action {
    type V = ActionView;

    open spec fn view(&self) -> ActionView {
        match self {
            Action::FetchProblem { id } => ActionView::FetchProblem { id: *id },
            Action::CreateWorkspace { dir } => ActionView::CreateWorkspace { dir: dir@ },
            Action::WriteSource { path, contents } => ActionView::WriteSource {
                path: path@,
                contents: contents@,
            },
            Action::Compile { source, binary } => ActionView::Compile {
                source: source@,
                binary: binary@,
            },
            Action::Run { binary, budget_ms } => ActionView::Run {
                binary: binary@,
                budget_ms: *budget_ms,
            },
            Action::ReadClock => ActionView::ReadClock,
            Action::StoreRecord(record) => ActionView::StoreRecord(record@),
            Action::RemoveWorkspace { dir } => ActionView::RemoveWorkspace { dir: dir@ },
            Action::Respond(response) => ActionView::Respond(response@),
        }
    }
}

/// Why the machine did not take an event.
#[derive(Clone, Copy, Debug, PartialEq, Eq, Structural)]
pub enum Refusal {
    /// The request is answered: nothing is awaited any more.
    Finished,
    /// The event does not end the action that is awaited.
    OutOfTurn,
}

/// Where a request stands: the action that is awaited, and what is known so
/// far.
#[derive(Debug)]
pub enum State {
    /// The catalog is being read.
    Lookup,
    /// The workspace directory is being created.
    Acquire { problem: Problem },
    /// The source file is being written.
    Write { problem: Problem },
    /// The compiler is running.
    Compile { problem: Problem },
    /// The program is running.
    Run { problem: Problem },
    /// The submission is judged, and the clock is being read for its record.
    Stamp {
        build: BuildResult,
        execution: Option<ExecutionResult>,
        report: RunResponse,
        acquired: bool,
    },
    /// The record is being written.
    Persist { report: RunResponse, acquired: bool },
    /// The workspace directory is being removed.
    Release { report: RunResponse },
    /// The request is answered.
    Done,
}

/// The model of a [`State`].
pub enum StateView {
    Lookup,
    Acquire { problem: ProblemView },
    Write { problem: ProblemView },
    Compile { problem: ProblemView },
    Run { problem: ProblemView },
    Stamp {
        build: BuildResultView,
        execution: Option<ExecutionResultView>,
        report: RunResponseView,
        acquired: bool,
    },
    Persist { report: RunResponseView, acquired: bool },
    Release { report: RunResponseView },
    Done,
}

impl StateView {
    /// How many events the request can still take, at most.
    pub open spec fn remaining(self) -> nat {
        match self {
            StateView::Lookup => 8,
            StateView::Acquire { .. } => 7,
            StateView::Write { .. } => 6,
            StateView::Compile { .. } => 5,
            StateView::Run { .. } => 4,
            StateView::Stamp { .. } => 3,
            StateView::Persist { .. } => 2,
            StateView::Release { .. } => 1,
            StateView::Done => 0,
        }
    }
}

impl View for State {
    type V = StateView;

    open spec fn view(&self) -> StateView {
        match self {
            State::Lookup => StateView::Lookup,
            State::Acquire { problem } => StateView::Acquire { problem: problem@ },
            State::Write { problem } => StateView::Write { problem: problem@ },
            State::Compile { problem } => StateView::Compile { problem: problem@ },
            State::Run { problem } => StateView::Run { problem: problem@ },
            State::Stamp { build, execution, report, acquired } => StateView::Stamp {
                build: build@,
                execution: execution.deep_view(),
                report: report@,
                acquired: *acquired,
            },
            State::Persist { report, acquired } => StateView::Persist {
                report: report@,
                acquired: *acquired,
            },
            State::Release { report } => StateView::Release { report: report@ },
            State::Done => StateView::Done,
        }
    }
}

/// One request on its way through the stages.
#[derive(Debug)]
pub struct Pipeline {
    submission: Submission,
    workspace: Workspace,
    state: State,
}

/// The model of a [`Pipeline`].
pub struct PipelineView {
    pub submission: SubmissionView,
    pub workspace: WorkspaceView,
    pub state: StateView,
}

impl PipelineView {
    /// The same request in another state.
    pub open spec fn at(self, state: StateView) -> PipelineView {
        PipelineView { submission: self.submission, workspace: self.workspace, state }
    }

    /// A request as it comes in, and its first action.
    pub open spec fn start(submission: SubmissionView, token: nat) -> (PipelineView, ActionView) {
        (
            PipelineView {
                submission,
                workspace: WorkspaceView::for_token(token),
                state: StateView::Lookup,
            },
            ActionView::FetchProblem { id: submission.problem_id },
        )
    }

    /// The stages are over: the submission is judged against `problem`, and
    /// the clock is read for its record. `acquired` says whether there is a
    /// workspace directory to remove.
    pub open spec fn conclude(
        self,
        problem: ProblemView,
        build: BuildResultView,
        execution: Option<ExecutionResultView>,
        acquired: bool,
    ) -> (PipelineView, ActionView) {
        let report = RunResponseView::judge(build, execution, problem, self.submission.source_code);
        (self.at(StateView::Stamp { build, execution, report, acquired }), ActionView::ReadClock)
    }

    /// The record is dealt with: the workspace directory is removed if there
    /// is one, and then the request is answered.
    pub open spec fn wind_up(self, report: RunResponseView, acquired: bool) -> (
        PipelineView,
        ActionView,
    ) {
        if acquired {
            (
                self.at(StateView::Release { report }),
                ActionView::RemoveWorkspace { dir: self.workspace.dir },
            )
        } else {
            (self.at(StateView::Done), ActionView::Respond(ResponseView::Completed(report)))
        }
    }

    /// What `event` makes of the request: the next state and the next action,
    /// or nothing where the event does not end the awaited action.
    pub open spec fn transition(self, event: EventView) -> Option<(PipelineView, ActionView)> {
        match (self.state, event) {
            (StateView::Lookup, EventView::ProblemFound(problem)) => Some(
                (
                    self.at(StateView::Acquire { problem }),
                    ActionView::CreateWorkspace { dir: self.workspace.dir },
                ),
            ),
            (StateView::Lookup, EventView::ProblemMissing) => Some(
                (self.at(StateView::Done), ActionView::Respond(ResponseView::unknown_problem())),
            ),
            (StateView::Lookup, EventView::LookupFailed(cause)) => Some(
                (self.at(StateView::Done), ActionView::Respond(ResponseView::lookup_failed(cause))),
            ),
            (StateView::Acquire { problem }, EventView::WorkspaceCreated) => Some(
                (
                    self.at(StateView::Write { problem }),
                    ActionView::WriteSource {
                        path: self.workspace.source_path,
                        contents: self.submission.source_code,
                    },
                ),
            ),
            (StateView::Acquire { problem }, EventView::WorkspaceFailed(cause)) => Some(
                self.conclude(problem, BuildResultView::workspace_failed(cause), None, false),
            ),
            (StateView::Write { problem }, EventView::SourceWritten) => Some(
                (
                    self.at(StateView::Compile { problem }),
                    ActionView::Compile {
                        source: self.workspace.source_path,
                        binary: self.workspace.binary_path,
                    },
                ),
            ),
            (StateView::Write { problem }, EventView::WriteFailed(cause)) => Some(
                self.conclude(problem, BuildResultView::write_failed(cause), None, true),
            ),
            (StateView::Compile { problem }, EventView::CompilerExited { success, diagnostics }) => {
                if success {
                    Some(
                        (
                            self.at(StateView::Run { problem }),
                            ActionView::Run {
                                binary: self.workspace.binary_path,
                                budget_ms: EXECUTION_BUDGET_MS,
                            },
                        ),
                    )
                } else {
                    Some(
                        self.conclude(
                            problem,
                            BuildResultView::compiler_exited(false, diagnostics),
                            None,
                            true,
                        ),
                    )
                }
            },
            (StateView::Compile { problem }, EventView::CompilerNotStarted(cause)) => Some(
                self.conclude(problem, BuildResultView::spawn_failed(cause), None, true),
            ),
            (StateView::Run { problem }, EventView::ProgramExited { stdout, stderr, elapsed_ms }) => Some(
                self.conclude(
                    problem,
                    BuildResultView::compiler_exited(true, Seq::empty()),
                    Some(ExecutionResultView::completed(stdout, stderr, elapsed_ms)),
                    true,
                ),
            ),
            (StateView::Run { problem }, EventView::ProgramTimedOut) => Some(
                self.conclude(
                    problem,
                    BuildResultView::compiler_exited(true, Seq::empty()),
                    Some(ExecutionResultView::timeout()),
                    true,
                ),
            ),
            (StateView::Run { problem }, EventView::ProgramNotStarted(cause)) => Some(
                self.conclude(
                    problem,
                    BuildResultView::compiler_exited(true, Seq::empty()),
                    Some(ExecutionResultView::spawn_failed(cause)),
                    true,
                ),
            ),
            (
                StateView::Stamp { build, execution, report, acquired },
                EventView::ClockRead { timestamp },
            ) => Some(
                (
                    self.at(StateView::Persist { report, acquired }),
                    ActionView::StoreRecord(
                        ExecutionRecordView::assemble(
                            self.submission,
                            build,
                            execution,
                            report,
                            timestamp,
                        ),
                    ),
                ),
            ),
            (StateView::Persist { report, acquired }, EventView::RecordStored) => Some(
                self.wind_up(report, acquired),
            ),
            (StateView::Persist { report, acquired }, EventView::RecordFailed) => Some(
                self.wind_up(report, acquired),
            ),
            (StateView::Release { report }, EventView::WorkspaceRemoved) => Some(
                (self.at(StateView::Done), ActionView::Respond(ResponseView::Completed(report))),
            ),
            (StateView::Release { report }, EventView::WorkspaceNotRemoved) => Some(
                (self.at(StateView::Done), ActionView::Respond(ResponseView::Completed(report))),
            ),
            _ => None,
        }
    }

    /// What holds of every request on its way: its workspace is named after
    /// a token, a run is known only after a build that succeeded, and the
    /// report is the one of the stage results.
    pub open spec fn well_formed(self) -> bool {
        &&& exists|token: nat| self.workspace == WorkspaceView::for_token(token)
        &&& match self.state {
            StateView::Stamp { build, execution, report, .. } => {
                &&& execution is Some ==> build.succeeded
                &&& report == RunResponseView::assemble(build, execution, report.passed)
                &&& report.well_formed()
            },
            StateView::Persist { report, .. } => report.well_formed(),
            StateView::Release { report } => report.well_formed(),
            _ => true,
        }
    }

    /// The request once it has taken `events` one after the other, or
    /// nothing if it refuses one of them.
    pub open spec fn after(self, events: Seq<EventView>) -> Option<PipelineView>
        decreases events.len(),
    {
        if events.len() == 0 {
            Some(self)
        } else {
            match self.transition(events[0]) {
                Some((next, _)) => next.after(events.drop_first()),
                None => None,
            }
        }
    }

    /// Why an event that [`transition`](Self::transition) does not take is
    /// refused.
    pub open spec fn refusal(self) -> Refusal {
        if self.state is Done {
            Refusal::Finished
        } else {
            Refusal::OutOfTurn
        }
    }
}

impl View for Pipeline {
    type V = PipelineView;

    closed spec fn view(&self) -> PipelineView {
        PipelineView {
            submission: self.submission@,
            workspace: self.workspace@,
            state: self.state@,
        }
    }
}


/// Judges the submission against `problem` and awaits the clock.
fn conclude(
    submission: &Submission,
    problem: &Problem,
    build: BuildResult,
    execution: Option<ExecutionResult>,
    acquired: bool,
) -> (next: (State, Action))
    ensures
        next.0@ == (StateView::Stamp {
            build: build@,
            execution: execution.deep_view(),
            report: RunResponseView::judge(
                build@,
                execution.deep_view(),
                problem@,
                submission@.source_code,
            ),
            acquired,
        }),
        next.1@ == ActionView::ReadClock,
{
    let report = RunResponse::judge(&build, &execution, problem, submission.source_code.as_str());
    (State::Stamp { build, execution, report, acquired }, Action::ReadClock)
}

/// Removes the workspace directory if there is one, and answers otherwise.
fn wind_up(workspace: &Workspace, report: RunResponse, acquired: bool) -> (next: (State, Action))
    ensures
        acquired ==> next.0@ == (StateView::Release { report: report@ }) && next.1@ == (
        ActionView::RemoveWorkspace { dir: workspace@.dir }),
        !acquired ==> next.0@ == StateView::Done && next.1@ == ActionView::Respond(
            ResponseView::Completed(report@),
        ),
{
    if acquired {
        (State::Release { report }, Action::RemoveWorkspace { dir: workspace.dir().to_owned() })
    } else {
        (State::Done, Action::Respond(Response::Completed(report)))
    }
}

/// The step of the machine on a state taken out of its pipeline.
fn advance(submission: &Submission, workspace: &Workspace, state: State, event: Event) -> (next: (
    State,
    Result<Action, Refusal>,
))
    ensures
        ({
            let before = PipelineView {
                submission: submission@,
                workspace: workspace@,
                state: state@,
            };
            match before.transition(event@) {
                Some((after, action)) => {
                    &&& after == before.at(next.0@)
                    &&& next.1 matches Ok(a)
                    &&& a@ == action
                },
                None => {
                    &&& next.0@ == state@
                    &&& next.1 == Err::<Action, Refusal>(before.refusal())
                },
            }
        }),
{
    match state {
        State::Lookup => match event {
            Event::ProblemFound(problem) => (
                State::Acquire { problem },
                Ok(Action::CreateWorkspace { dir: workspace.dir().to_owned() }),
            ),
            Event::ProblemMissing => (
                State::Done,
                Ok(Action::Respond(Response::unknown_problem())),
            ),
            Event::LookupFailed(cause) => (
                State::Done,
                Ok(Action::Respond(Response::lookup_failed(cause.as_str()))),
            ),
            _ => (State::Lookup, Err(Refusal::OutOfTurn)),
        },
        State::Acquire { problem } => match event {
            Event::WorkspaceCreated => (
                State::Write { problem },
                Ok(
                    Action::WriteSource {
                        path: workspace.source_path().to_owned(),
                        contents: submission.source_code.clone(),
                    },
                ),
            ),
            Event::WorkspaceFailed(cause) => {
                let build = BuildResult::workspace_failed(cause.as_str());
                let (next, action) = conclude(submission, &problem, build, None, false);
                (next, Ok(action))
            },
            _ => (State::Acquire { problem }, Err(Refusal::OutOfTurn)),
        },
        State::Write { problem } => match event {
            Event::SourceWritten => (
                State::Compile { problem },
                Ok(
                    Action::Compile {
                        source: workspace.source_path().to_owned(),
                        binary: workspace.binary_path().to_owned(),
                    },
                ),
            ),
            Event::WriteFailed(cause) => {
                let build = BuildResult::write_failed(cause.as_str());
                let (next, action) = conclude(submission, &problem, build, None, true);
                (next, Ok(action))
            },
            _ => (State::Write { problem }, Err(Refusal::OutOfTurn)),
        },
        State::Compile { problem } => match event {
            Event::CompilerExited { success, diagnostics } => {
                if success {
                    (
                        State::Run { problem },
                        Ok(
                            Action::Run {
                                binary: workspace.binary_path().to_owned(),
                                budget_ms: EXECUTION_BUDGET_MS,
                            },
                        ),
                    )
                } else {
                    let build = BuildResult::from_compiler_output(false, diagnostics);
                    let (next, action) = conclude(submission, &problem, build, None, true);
                    (next, Ok(action))
                }
            },
            Event::CompilerNotStarted(cause) => {
                let build = BuildResult::spawn_failed(cause.as_str());
                let (next, action) = conclude(submission, &problem, build, None, true);
                (next, Ok(action))
            },
            _ => (State::Compile { problem }, Err(Refusal::OutOfTurn)),
        },
        State::Run { problem } => match event {
            Event::ProgramExited { stdout, stderr, elapsed_ms } => {
                let build = BuildResult::from_compiler_output(true, String::new());
                let run = ExecutionResult::completed(stdout, stderr, elapsed_ms);
                let (next, action) = conclude(submission, &problem, build, Some(run), true);
                (next, Ok(action))
            },
            Event::ProgramTimedOut => {
                let build = BuildResult::from_compiler_output(true, String::new());
                let run = ExecutionResult::timeout();
                let (next, action) = conclude(submission, &problem, build, Some(run), true);
                (next, Ok(action))
            },
            Event::ProgramNotStarted(cause) => {
                let build = BuildResult::from_compiler_output(true, String::new());
                let run = ExecutionResult::spawn_failed(cause.as_str());
                let (next, action) = conclude(submission, &problem, build, Some(run), true);
                (next, Ok(action))
            },
            _ => (State::Run { problem }, Err(Refusal::OutOfTurn)),
        },
        State::Stamp { build, execution, report, acquired } => match event {
            Event::ClockRead { timestamp } => {
                let record = ExecutionRecord::assemble(
                    submission,
                    build,
                    execution,
                    &report,
                    timestamp,
                );
                (State::Persist { report, acquired }, Ok(Action::StoreRecord(record)))
            },
            _ => (State::Stamp { build, execution, report, acquired }, Err(Refusal::OutOfTurn)),
        },
        State::Persist { report, acquired } => match event {
            Event::RecordStored | Event::RecordFailed => {
                let (next, action) = wind_up(workspace, report, acquired);
                (next, Ok(action))
            },
            _ => (State::Persist { report, acquired }, Err(Refusal::OutOfTurn)),
        },
        State::Release { report } => match event {
            Event::WorkspaceRemoved | Event::WorkspaceNotRemoved => (
                State::Done,
                Ok(Action::Respond(Response::Completed(report))),
            ),
            _ => (State::Release { report }, Err(Refusal::OutOfTurn)),
        },
        State::Done => (State::Done, Err(Refusal::Finished)),
    }
}

impl Pipeline {
    /// Takes a request in. `token` names its workspace, and has to differ
    /// from the token of every other request.
    pub fn start(submission: Submission, token: u128) -> (begun: (Pipeline, Action))
        ensures
            (begun.0@, begun.1@) == PipelineView::start(submission@, token as nat),
    {
        let action = Action::FetchProblem { id: submission.problem_id };
        let workspace = Workspace::for_token(token);
        (Pipeline { submission, workspace, state: State::Lookup }, action)
    }

    /// Takes the event that ends the awaited action, and says what to do
    /// next. An event that does not end the awaited action is refused, and
    /// changes nothing.
    pub fn step(&mut self, event: Event) -> (next: Result<Action, Refusal>)
        ensures
            match old(self)@.transition(event@) {
                Some((after, action)) => {
                    &&& final(self)@ == after
                    &&& next matches Ok(a)
                    &&& a@ == action
                },
                None => {
                    &&& final(self)@ == old(self)@
                    &&& next == Err::<Action, Refusal>(old(self)@.refusal())
                },
            },
    {
        let mut state = State::Done;
        core::mem::swap(&mut self.state, &mut state);
        let (after, next) = advance(&self.submission, &self.workspace, state, event);
        self.state = after;
        next
    }

    /// The submission of this request.
    pub fn submission(&self) -> (submission: &Submission)
        ensures
            submission@ == self@.submission,
    {
        &self.submission
    }

    /// The workspace of this request.
    pub fn workspace(&self) -> (workspace: &Workspace)
        ensures
            workspace@ == self@.workspace,
    {
        &self.workspace
    }

    /// Where this request stands.
    pub fn state(&self) -> (state: &State)
        ensures
            state@ == self@.state,
    {
        &self.state
    }

    /// Whether the request is answered.
    pub fn is_finished(&self) -> (finished: bool)
        ensures
            finished == (self@.state is Done),
    {
        match self.state {
            State::Done => true,
            _ => false,
        }
    }
}


impl StateView {
    /// Whether the request has a workspace directory on disk that is still to
    /// be removed.
    pub open spec fn holds_workspace(self) -> bool {
        match self {
            StateView::Write { .. } | StateView::Compile { .. } | StateView::Run { .. } => true,
            StateView::Stamp { acquired, .. } => acquired,
            StateView::Persist { acquired, .. } => acquired,
            StateView::Release { .. } => true,
            _ => false,
        }
    }
}

/// A request is well formed when it comes in, and stays so with every event
/// that it takes.
pub proof fn lemma_well_formed_throughout(
    submission: SubmissionView,
    token: nat,
    before: PipelineView,
    event: EventView,
)
    ensures
        PipelineView::start(submission, token).0.well_formed(),
        before.well_formed() ==> (before.transition(event) matches Some((after, _))
            ==> after.well_formed()),
{
}

/// Every event that is taken brings the request nearer to its answer: no
/// request takes more than eight events. The submission and the workspace
/// stay what they were, and the request is finished exactly when the action
/// is the answer.
pub proof fn lemma_progress(before: PipelineView, event: EventView)
    requires
        before.transition(event) is Some,
    ensures
        ({
            let (after, action) = before.transition(event)->0;
            &&& after.state.remaining() < before.state.remaining()
            &&& after.submission == before.submission
            &&& after.workspace == before.workspace
            &&& action is Respond <==> after.state is Done
        }),
{
}

/// However a request goes, it is over after eight events at most: it takes
/// no more events than its state has remaining, and what remains afterwards
/// is less by their number at least.
pub proof fn lemma_run_is_finite(before: PipelineView, events: Seq<EventView>)
    requires
        before.after(events) is Some,
    ensures
        before.after(events)->0.state.remaining() + events.len() <= before.state.remaining(),
        events.len() <= 8,
    decreases events.len(),
{
    if events.len() > 0 {
        let (next, _) = before.transition(events[0])->0;
        lemma_progress(before, events[0]);
        lemma_run_is_finite(next, events.drop_first());
    }
}

/// Whatever events a request has taken since it came in, it is well formed:
/// in particular it knows of no run unless the build succeeded.
pub proof fn lemma_reachable_is_well_formed(
    submission: SubmissionView,
    token: nat,
    events: Seq<EventView>,
)
    requires
        PipelineView::start(submission, token).0.after(events) is Some,
    ensures
        PipelineView::start(submission, token).0.after(events)->0.well_formed(),
{
    let begun = PipelineView::start(submission, token).0;
    lemma_well_formed_throughout(submission, token, begun, EventView::ProblemMissing);
    lemma_after_keeps_well_formed(begun, events);
}

proof fn lemma_after_keeps_well_formed(before: PipelineView, events: Seq<EventView>)
    requires
        before.well_formed(),
        before.after(events) is Some,
    ensures
        before.after(events)->0.well_formed(),
    decreases events.len(),
{
    if events.len() > 0 {
        let (next, _) = before.transition(events[0])->0;
        lemma_well_formed_throughout(before.submission, 0, before, events[0]);
        lemma_after_keeps_well_formed(next, events.drop_first());
    }
}

/// A program is run only once the compiler has exited with success, it is
/// the binary of the request's own workspace, and its budget is the fixed
/// one.
pub proof fn lemma_run_is_bounded(before: PipelineView, event: EventView)
    requires
        before.transition(event) matches Some((_, action)) && action is Run,
    ensures
        before.state is Compile,
        event matches EventView::CompilerExited { success, .. } && success,
        before.transition(event) matches Some((_, action)) && action == (ActionView::Run {
            binary: before.workspace.binary_path,
            budget_ms: EXECUTION_BUDGET_MS,
        }),
{
}

/// A build that fails, whether the compiler rejected the source or could
/// not be started, fails the submission, and no run is reported: the report
/// shows the diagnostics and nothing else.
pub proof fn lemma_failed_build_is_final(before: PipelineView, event: EventView)
    requires
        before.state is Compile,
        event is CompilerNotStarted || (event matches EventView::CompilerExited { success, .. }
            && !success),
    ensures
        before.transition(event) matches Some((after, action)) && action == ActionView::ReadClock
            && (after.state matches StateView::Stamp { build, execution, report, .. }
            && !build.succeeded && execution is None && !report.compiled && !report.timed_out
            && !report.passed && report.stdout == Seq::<char>::empty() && report.stderr
            == build.diagnostics && report.output == build.diagnostics),
        event matches EventView::CompilerExited { diagnostics, .. } ==> (before.transition(
            event,
        ) matches Some((after, _)) && (after.state matches StateView::Stamp { report, .. }
            && report.output == diagnostics)),
{
}

/// A run that exceeds the budget is reported as timed out, with empty
/// streams and the fixed message, and fails the submission.
pub proof fn lemma_timeout_is_reported(before: PipelineView)
    requires
        before.state is Run,
    ensures
        before.transition(EventView::ProgramTimedOut) matches Some((after, action)) && action
            == ActionView::ReadClock && (after.state matches StateView::Stamp {
            execution,
            report,
            ..
        } && execution == Some(ExecutionResultView::timeout()) && report.compiled
            && report.timed_out && !report.passed && report.stdout == Seq::<char>::empty()
            && report.stderr == Seq::<char>::empty() && report.output
            == "Time limit exceeded"@),
{
}

/// A program that prints the expected text, up to line endings, and whose
/// source keeps every rule of the problem passes.
pub proof fn lemma_expected_output_is_accepted(before: PipelineView, event: EventView)
    requires
        before.state matches StateView::Run { problem } && (event matches EventView::ProgramExited {
            stdout,
            ..
        } && crate::text::unify_line_endings(stdout) == problem.expected_stdout
            && crate::verdict::rules_hold(problem.source_rules, before.submission.source_code)),
    ensures
        before.transition(event) matches Some((after, _)) && (after.state matches StateView::Stamp {
            report,
            ..
        } && report.compiled && !report.timed_out && report.passed),
{
}

/// Whether the record could be written makes no difference to what follows,
/// and neither does the removal of the workspace: from the moment the
/// submission is judged, the report is fixed, and the answer carries it.
pub proof fn lemma_answer_is_fixed(before: PipelineView, event: EventView)
    ensures
        before.transition(EventView::RecordStored) == before.transition(EventView::RecordFailed),
        before.transition(EventView::WorkspaceRemoved) == before.transition(
            EventView::WorkspaceNotRemoved,
        ),
        before.state matches StateView::Stamp { report, .. } ==> (before.transition(
            event,
        ) matches Some((after, _)) ==> after.state matches StateView::Persist { report: kept, .. }
            && kept == report),
        before.state matches StateView::Persist { report, .. } ==> (before.transition(
            event,
        ) matches Some((after, action)) ==> (after.state matches StateView::Release { report: kept }
            && kept == report) || action == ActionView::Respond(ResponseView::Completed(report))),
        before.state matches StateView::Release { report } ==> (before.transition(
            event,
        ) matches Some((_, action)) ==> action == ActionView::Respond(
            ResponseView::Completed(report),
        )),
{
}

/// A request for a problem that the catalog does not hold is answered at
/// once, and a workspace is created only for a problem that was found.
pub proof fn lemma_unknown_problem_allocates_nothing(before: PipelineView, event: EventView)
    ensures
        before.state is Lookup ==> before.transition(EventView::ProblemMissing) == Some(
            (
                before.at(StateView::Done),
                ActionView::Respond(ResponseView::Rejected("invalid problem_id"@)),
            ),
        ),
        before.transition(event) matches Some((_, action)) ==> (action is CreateWorkspace ==> (
        before.state is Lookup && event is ProblemFound && action == (
        ActionView::CreateWorkspace { dir: before.workspace.dir }))),
{
}

/// No failure of a stage reaches the caller as an error: once the problem
/// is found, the request is answered with a report, whatever failed on the
/// way. A client error answers only a problem that the catalog does not
/// hold, and a server error only a catalog that could not be read.
pub proof fn lemma_failures_are_reported(before: PipelineView, event: EventView)
    ensures
        before.transition(event) matches Some((_, ActionView::Respond(response))) ==> {
            &&& response.status() == 400 <==> before.state is Lookup && event is ProblemMissing
            &&& response.status() == 500 <==> before.state is Lookup && event is LookupFailed
            &&& response.status() == 200 <==> !(before.state is Lookup)
        },
{
}

/// A workspace directory that was created is never forgotten: the request
/// holds it until its removal was attempted, and is not answered before.
pub proof fn lemma_workspace_is_released(before: PipelineView, event: EventView)
    requires
        before.transition(event) is Some,
    ensures
        ({
            let (after, action) = before.transition(event)->0;
            &&& before.state is Acquire && event is WorkspaceCreated
                ==> after.state.holds_workspace()
            &&& before.state.holds_workspace() && !(before.state is Release) ==> {
                &&& after.state.holds_workspace()
                &&& !(action is Respond)
            }
            &&& (before.state matches StateView::Persist { acquired, .. } && acquired) ==> action
                == (ActionView::RemoveWorkspace { dir: before.workspace.dir })
        }),
{
}

/// Two requests with different tokens work apart, whatever their problem
/// ids: no path that the one is told to touch is the workspace directory of
/// the other or lies below it.
pub proof fn lemma_requests_are_isolated(
    one: SubmissionView,
    token_one: nat,
    other: SubmissionView,
    token_other: nat,
)
    requires
        token_one != token_other,
    ensures
        ({
            let mine = PipelineView::start(one, token_one).0.workspace;
            let theirs = PipelineView::start(other, token_other).0.workspace;
            &&& !mine.holds(theirs.dir)
            &&& !mine.holds(theirs.source_path)
            &&& !mine.holds(theirs.binary_path)
        }),
{
    crate::workspace::lemma_workspaces_apart(token_one, token_other);
}

} // verus!
