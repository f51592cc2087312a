//! One run of the front end, as a machine that is told what happened and
//! answers with what to do next.
//!
//! The caller owns every effect. It hands the session an `Event`; the
//! session moves on and returns the `Action` that the caller is to perform;
//! the caller reports how that went with the next event. The projects are
//! taken strictly one after the other, each through the same stations:
//! resolve the directory, look for the manifest, build, look for the entry
//! point, write it where it is missing.

use vstd::prelude::*;
use crate::paths::{index_of, index_path, manifest_of, manifest_path, strip_marker, without_marker};
use crate::plan::{Mode, Plan, PlanView, Toolchain};
use crate::policy::{excluded, is_excluded};
use crate::tools::{binding_of, compilation_of, packaging_of, CommandView, Tool, ToolCommand};

verus! {

/// Where a session stands.
#[derive(Clone, Copy, Debug, PartialEq, Eq, Structural)]
pub enum Phase {
    /// Nothing has been asked for yet.
    Idle,
    /// The current directory is being resolved.
    Resolving,
    /// The manifest of the current project is being looked for.
    Validating,
    /// The caller is reporting that the current project is skipped.
    Reporting,
    /// The packaging tool is running.
    Packaging,
    /// The native build tool is running.
    Compiling,
    /// The bindings generator is running.
    Binding,
    /// The entry point of the current project is being looked for.
    Probing,
    /// The entry point of the current project is being written.
    Writing,
    /// Every project is done and the result is being served.
    Serving,
    /// The run has ended well.
    Completed,
    /// The run has been given up.
    Aborted,
}

/// How the start of a tool went.
#[derive(Clone, Copy, Debug, PartialEq, Eq)]
pub enum Outcome {
    /// The tool ran and reported success.
    Succeeded,
    /// The tool ran and reported failure; `code` is its exit code, where it
    /// left one.
    Failed { code: Option<i32> },
    /// The tool could not be started.
    NotStarted,
}

/// How a tool ended that was started, by its exit code: zero is success,
/// any other code, or none at all, is failure.
pub open spec fn outcome_of(code: Option<i32>) -> Outcome {
    if code == Some(0i32) {
        Outcome::Succeeded
    } else {
        Outcome::Failed { code }
    }
}

impl Outcome {
    /// Reads the exit code of a tool that was started and has ended.
    pub fn from_exit_code(code: Option<i32>) -> (outcome: Outcome)
        ensures
            outcome == outcome_of(code),
    {
        match code {
            Some(0) => Outcome::Succeeded,
            _ => Outcome::Failed { code },
        }
    }
}

/// What the caller reports to a session.
#[derive(Clone, Debug, PartialEq, Eq)]
pub enum Event {
    /// The run begins.
    Begin,
    /// The directory asked about exists: `path` is its canonical absolute
    /// path and `name` the last component of that path.
    Resolved { path: String, name: String },
    /// The directory asked about does not exist or cannot be resolved.
    Unresolvable,
    /// Whether the file asked about exists.
    Exists { present: bool },
    /// The tool that was started has ended, or could not be started.
    ToolExited { outcome: Outcome },
    /// The action asked for has been performed.
    Done,
}

/// What an `Event` holds, as mathematical values.
pub enum EventView {
    Begin,
    Resolved { path: Seq<char>, name: Seq<char> },
    Unresolvable,
    Exists { present: bool },
    ToolExited { outcome: Outcome },
    Done,
}

impl View for Event {
    type V = EventView;

    open spec fn view(&self) -> EventView {
        match self {
            Event::Begin => EventView::Begin,
            Event::Resolved { path, name } => EventView::Resolved { path: path@, name: name@ },
            Event::Unresolvable => EventView::Unresolvable,
            Event::Exists { present } => EventView::Exists { present: *present },
            Event::ToolExited { outcome } => EventView::ToolExited { outcome: *outcome },
            Event::Done => EventView::Done,
        }
    }
}

/// Why a project is skipped.
#[derive(Clone, Copy, Debug, PartialEq, Eq, Structural)]
pub enum SkipReason {
    /// The directory holds no build manifest.
    MissingManifest,
    /// The native build leaves the directory out by its name.
    Excluded,
}

/// Why a run is given up.
#[derive(Clone, Debug, PartialEq, Eq)]
pub enum Failure {
    /// The directory `dir`, as it was typed, cannot be resolved.
    Unresolvable { dir: String },
    /// The project at `project` holds no manifest and the run is strict.
    MissingManifest { project: String },
    /// `tool` could not be started for the project at `project`.
    NotStarted { project: String, tool: Tool },
    /// `tool` reported failure for the project at `project`.
    BuildFailed { project: String, tool: Tool, code: Option<i32> },
    /// The caller reported something that the session was not waiting for.
    OutOfTurn,
}

/// What a `Failure` holds, as mathematical values.
pub enum FailureView {
    Unresolvable { dir: Seq<char> },
    MissingManifest { project: Seq<char> },
    NotStarted { project: Seq<char>, tool: Tool },
    BuildFailed { project: Seq<char>, tool: Tool, code: Option<i32> },
    OutOfTurn,
}

impl View for Failure {
    type V = FailureView;

    open spec fn view(&self) -> FailureView {
        match self {
            Failure::Unresolvable { dir } => FailureView::Unresolvable { dir: dir@ },
            Failure::MissingManifest { project } => FailureView::MissingManifest {
                project: project@,
            },
            Failure::NotStarted { project, tool } => FailureView::NotStarted {
                project: project@,
                tool: *tool,
            },
            Failure::BuildFailed { project, tool, code } => FailureView::BuildFailed {
                project: project@,
                tool: *tool,
                code: *code,
            },
            Failure::OutOfTurn => FailureView::OutOfTurn,
        }
    }
}

/// What a session asks of the caller. `project` is the position of the
/// project among the directories of the plan, counted from zero.
#[derive(Clone, Debug, PartialEq, Eq)]
pub enum Action {
    /// Resolve `dir` against the working directory to a canonical absolute
    /// path, and answer `Resolved` or `Unresolvable`.
    Resolve { project: usize, dir: String },
    /// Tell whether the manifest at `path` exists, with `Exists`.
    CheckManifest { project: usize, path: String },
    /// Report that the project at `path` is skipped, and answer `Done`.
    Skip { project: usize, path: String, reason: SkipReason },
    /// Start `command`, wait for it to end, and answer `ToolExited`.
    Run { project: usize, command: ToolCommand },
    /// Tell whether the entry point at `path` exists, with `Exists`.
    CheckIndex { project: usize, path: String },
    /// Create the file at `path` with exactly `contents`, and answer `Done`.
    WriteIndex { project: usize, path: String, contents: String },
    /// Serve what was built, and answer `Done`.
    Serve,
    /// End the run: all is done.
    Finish,
    /// End the run at once and report `failure`.
    Abort { failure: Failure },
}

/// What an `Action` holds, as mathematical values.
pub enum ActionView {
    Resolve { project: nat, dir: Seq<char> },
    CheckManifest { project: nat, path: Seq<char> },
    Skip { project: nat, path: Seq<char>, reason: SkipReason },
    Run { project: nat, command: CommandView },
    CheckIndex { project: nat, path: Seq<char> },
    WriteIndex { project: nat, path: Seq<char>, contents: Seq<char> },
    Serve,
    Finish,
    Abort { failure: FailureView },
}

impl View for Action {
    type V = ActionView;

    open spec fn view(&self) -> ActionView {
        match self {
            Action::Resolve { project, dir } => ActionView::Resolve {
                project: *project as nat,
                dir: dir@,
            },
            Action::CheckManifest { project, path } => ActionView::CheckManifest {
                project: *project as nat,
                path: path@,
            },
            Action::Skip { project, path, reason } => ActionView::Skip {
                project: *project as nat,
                path: path@,
                reason: *reason,
            },
            Action::Run { project, command } => ActionView::Run {
                project: *project as nat,
                command: command@,
            },
            Action::CheckIndex { project, path } => ActionView::CheckIndex {
                project: *project as nat,
                path: path@,
            },
            Action::WriteIndex { project, path, contents } => ActionView::WriteIndex {
                project: *project as nat,
                path: path@,
                contents: contents@,
            },
            Action::Serve => ActionView::Serve,
            Action::Finish => ActionView::Finish,
            Action::Abort { failure } => ActionView::Abort { failure: failure@ },
        }
    }
}

/// A run in progress.
#[derive(Clone, Debug)]
pub struct Session {
    plan: Plan,
    cursor: usize,
    phase: Phase,
    project: String,
    name: String,
}

/// What a `Session` holds, as mathematical values.
pub struct SessionView {
    /// The work of the run.
    pub plan: PlanView,
    /// The position of the current project among the directories of the plan.
    pub cursor: nat,
    /// Where the session stands.
    pub phase: Phase,
    /// The canonical path of the current project, once it is resolved.
    pub project: Seq<char>,
    /// The last component of that path.
    pub name: Seq<char>,
}

impl SessionView {
    /// The cursor points at a project wherever the phase belongs to one, and
    /// stands behind the last project once all are done.
    pub open spec fn wf(self) -> bool {
        match self.phase {
            Phase::Idle => self.cursor == 0,
            Phase::Serving | Phase::Completed => self.cursor == self.plan.project_dirs.len(),
            Phase::Aborted => true,
            _ => self.cursor < self.plan.project_dirs.len(),
        }
    }

    /// The session as it is left when the run is given up.
    pub open spec fn aborted(self) -> SessionView {
        SessionView { phase: Phase::Aborted, ..self }
    }

    /// The session in another phase of the same project.
    pub open spec fn at(self, phase: Phase) -> SessionView {
        SessionView { phase, ..self }
    }
}

/// The session of a plan before anything has happened.
pub open spec fn initial(plan: PlanView) -> SessionView {
    SessionView {
        plan,
        cursor: 0,
        phase: Phase::Idle,
        project: Seq::empty(),
        name: Seq::empty(),
    }
}

/// Giving the run up for `failure`.
pub open spec fn give_up(s: SessionView, failure: FailureView) -> (SessionView, ActionView) {
    (s.aborted(), ActionView::Abort { failure })
}

/// Turning to the project at position `k`: it is resolved first. Behind the
/// last project the run is served, where the plan asks for that, or ends.
pub open spec fn turn_to(s: SessionView, k: nat) -> (SessionView, ActionView) {
    if k < s.plan.project_dirs.len() {
        (
            SessionView { cursor: k, phase: Phase::Resolving, ..s },
            ActionView::Resolve { project: k, dir: s.plan.project_dirs[k as int] },
        )
    } else if s.plan.mode == Mode::BuildThenRun {
        (SessionView { cursor: k, phase: Phase::Serving, ..s }, ActionView::Serve)
    } else {
        (SessionView { cursor: k, phase: Phase::Completed, ..s }, ActionView::Finish)
    }
}

/// Starting the build of the current project, whose manifest was found. The
/// native toolchain skips the directories that its policy leaves out.
pub open spec fn start_build(s: SessionView) -> (SessionView, ActionView) {
    match s.plan.toolchain {
        Toolchain::Packaging => (
            s.at(Phase::Packaging),
            ActionView::Run {
                project: s.cursor,
                command: packaging_of(s.plan.release, s.project),
            },
        ),
        Toolchain::Native => if excluded(s.name) {
            (
                s.at(Phase::Reporting),
                ActionView::Skip {
                    project: s.cursor,
                    path: s.project,
                    reason: SkipReason::Excluded,
                },
            )
        } else {
            (
                s.at(Phase::Compiling),
                ActionView::Run {
                    project: s.cursor,
                    command: compilation_of(s.plan.release, s.project),
                },
            )
        },
    }
}

/// The tool that runs in `phase`, if one does.
pub open spec fn running(phase: Phase) -> Option<Tool> {
    match phase {
        Phase::Packaging => Some(Tool::WasmPack),
        Phase::Compiling => Some(Tool::Cargo),
        Phase::Binding => Some(Tool::WasmBindgen),
        _ => None,
    }
}

/// What follows when `tool` has ended well: after the native build the
/// bindings are generated; after the last tool of a build the entry point is
/// looked for.
pub open spec fn after_success(s: SessionView, tool: Tool) -> (SessionView, ActionView) {
    if tool == Tool::Cargo {
        (
            s.at(Phase::Binding),
            ActionView::Run {
                project: s.cursor,
                command: binding_of(s.plan.workspace, s.name, s.project),
            },
        )
    } else {
        (
            s.at(Phase::Probing),
            ActionView::CheckIndex { project: s.cursor, path: index_path(s.project) },
        )
    }
}

/// What follows when `tool` has ended with `outcome`. A tool that fails or
/// cannot be started ends the run.
pub open spec fn after_tool(s: SessionView, tool: Tool, outcome: Outcome) -> (
    SessionView,
    ActionView,
) {
    match outcome {
        Outcome::Succeeded => after_success(s, tool),
        Outcome::Failed { code } => give_up(
            s,
            FailureView::BuildFailed { project: s.project, tool, code },
        ),
        Outcome::NotStarted => give_up(s, FailureView::NotStarted { project: s.project, tool }),
    }
}

/// The next state and the action for every state and event. An event that
/// the state was not waiting for ends the run as `OutOfTurn`.
pub open spec fn step(s: SessionView, e: EventView) -> (SessionView, ActionView) {
    match (s.phase, e) {
        (Phase::Idle, EventView::Begin) => turn_to(s, 0),
        (Phase::Resolving, EventView::Resolved { path, name }) => (
            SessionView { phase: Phase::Validating, project: without_marker(path), name, ..s },
            ActionView::CheckManifest {
                project: s.cursor,
                path: manifest_path(without_marker(path)),
            },
        ),
        (Phase::Resolving, EventView::Unresolvable) => give_up(
            s,
            FailureView::Unresolvable { dir: s.plan.project_dirs[s.cursor as int] },
        ),
        (Phase::Validating, EventView::Exists { present }) => if present {
            start_build(s)
        } else if s.plan.strict {
            give_up(s, FailureView::MissingManifest { project: s.project })
        } else {
            (
                s.at(Phase::Reporting),
                ActionView::Skip {
                    project: s.cursor,
                    path: s.project,
                    reason: SkipReason::MissingManifest,
                },
            )
        },
        (Phase::Reporting, EventView::Done) => turn_to(s, s.cursor + 1),
        (Phase::Packaging, EventView::ToolExited { outcome }) => after_tool(
            s,
            Tool::WasmPack,
            outcome,
        ),
        (Phase::Compiling, EventView::ToolExited { outcome }) => after_tool(
            s,
            Tool::Cargo,
            outcome,
        ),
        (Phase::Binding, EventView::ToolExited { outcome }) => after_tool(
            s,
            Tool::WasmBindgen,
            outcome,
        ),
        (Phase::Probing, EventView::Exists { present }) => if present {
            turn_to(s, s.cursor + 1)
        } else {
            (
                s.at(Phase::Writing),
                ActionView::WriteIndex {
                    project: s.cursor,
                    path: index_path(s.project),
                    contents: s.plan.template,
                },
            )
        },
        (Phase::Writing, EventView::Done) => turn_to(s, s.cursor + 1),
        (Phase::Serving, EventView::Done) => (s.at(Phase::Completed), ActionView::Finish),
        _ => give_up(s, FailureView::OutOfTurn),
    }
}

impl View for Session {
    type V = SessionView;

    closed spec fn view(&self) -> SessionView {
        SessionView {
            plan: self.plan@,
            cursor: self.cursor as nat,
            phase: self.phase,
            project: self.project@,
            name: self.name@,
        }
    }
}

impl Session {
    /// A session for `plan`, waiting for `Begin`.
    pub fn new(plan: Plan) -> (session: Session)
        ensures
            session@ == initial(plan@),
            session@.wf(),
    {
        Session {
            plan,
            cursor: 0,
            phase: Phase::Idle,
            project: String::new(),
            name: String::new(),
        }
    }

    /// Where the session stands.
    pub fn phase(&self) -> (phase: Phase)
        ensures
            phase == self@.phase,
    {
        self.phase
    }

    /// The position of the current project among the directories of the plan.
    pub fn cursor(&self) -> (cursor: usize)
        ensures
            cursor == self@.cursor,
    {
        self.cursor
    }

    /// Whether the run has ended, well or not.
    pub fn is_over(&self) -> (over: bool)
        ensures
            over == (self@.phase == Phase::Completed || self@.phase == Phase::Aborted),
    {
        self.phase == Phase::Completed || self.phase == Phase::Aborted
    }

    fn give_up(&mut self, failure: Failure) -> (action: Action)
        ensures
            (final(self)@, action@) == give_up(old(self)@, failure@),
    {
        self.phase = Phase::Aborted;
        Action::Abort { failure }
    }

    fn turn_to(&mut self, k: usize) -> (action: Action)
        requires
            k <= old(self)@.plan.project_dirs.len(),
        ensures
            (final(self)@, action@) == turn_to(old(self)@, k as nat),
    {
        self.cursor = k;
        if k < self.plan.project_dirs.len() {
            self.phase = Phase::Resolving;
            Action::Resolve { project: k, dir: self.plan.project_dirs[k].clone() }
        } else if self.plan.mode == Mode::BuildThenRun {
            self.phase = Phase::Serving;
            Action::Serve
        } else {
            self.phase = Phase::Completed;
            Action::Finish
        }
    }

    fn start_build(&mut self) -> (action: Action)
        ensures
            (final(self)@, action@) == start_build(old(self)@),
    {
        match self.plan.toolchain {
            Toolchain::Packaging => {
                self.phase = Phase::Packaging;
                Action::Run {
                    project: self.cursor,
                    command: ToolCommand::packaging(self.plan.release, self.project.as_str()),
                }
            },
            Toolchain::Native => {
                if is_excluded(self.name.as_str()) {
                    self.phase = Phase::Reporting;
                    Action::Skip {
                        project: self.cursor,
                        path: self.project.clone(),
                        reason: SkipReason::Excluded,
                    }
                } else {
                    self.phase = Phase::Compiling;
                    Action::Run {
                        project: self.cursor,
                        command: ToolCommand::compilation(
                            self.plan.release,
                            self.project.as_str(),
                        ),
                    }
                }
            },
        }
    }

    fn after_tool(&mut self, tool: Tool, outcome: Outcome) -> (action: Action)
        ensures
            (final(self)@, action@) == after_tool(old(self)@, tool, outcome),
    {
        match outcome {
            Outcome::Succeeded => {
                if tool == Tool::Cargo {
                    self.phase = Phase::Binding;
                    Action::Run {
                        project: self.cursor,
                        command: ToolCommand::binding(
                            self.plan.workspace.as_str(),
                            self.name.as_str(),
                            self.project.as_str(),
                        ),
                    }
                } else {
                    self.phase = Phase::Probing;
                    Action::CheckIndex {
                        project: self.cursor,
                        path: index_of(self.project.as_str()),
                    }
                }
            },
            Outcome::Failed { code } => {
                let project = self.project.clone();
                self.give_up(Failure::BuildFailed { project, tool, code })
            },
            Outcome::NotStarted => {
                let project = self.project.clone();
                self.give_up(Failure::NotStarted { project, tool })
            },
        }
    }

    /// Takes in what the caller reports and answers with what to do next,
    /// exactly as `step` says.
    pub fn step(&mut self, event: Event) -> (action: Action)
        requires
            old(self)@.wf(),
        ensures
            (final(self)@, action@) == step(old(self)@, event@),
            final(self)@.wf(),
    {
        assert(self@.plan.project_dirs.len() == self.plan.project_dirs.len());
        match event {
            Event::Begin => {
                if self.phase == Phase::Idle {
                    self.turn_to(0)
                } else {
                    self.give_up(Failure::OutOfTurn)
                }
            },
            Event::Resolved { path, name } => {
                if self.phase == Phase::Resolving {
                    self.project = strip_marker(path.as_str());
                    self.name = name;
                    self.phase = Phase::Validating;
                    Action::CheckManifest {
                        project: self.cursor,
                        path: manifest_of(self.project.as_str()),
                    }
                } else {
                    self.give_up(Failure::OutOfTurn)
                }
            },
            Event::Unresolvable => {
                if self.phase == Phase::Resolving {
                    let dir = self.plan.project_dirs[self.cursor].clone();
                    self.give_up(Failure::Unresolvable { dir })
                } else {
                    self.give_up(Failure::OutOfTurn)
                }
            },
            Event::Exists { present } => {
                if self.phase == Phase::Validating {
                    if present {
                        self.start_build()
                    } else if self.plan.strict {
                        let project = self.project.clone();
                        self.give_up(Failure::MissingManifest { project })
                    } else {
                        self.phase = Phase::Reporting;
                        Action::Skip {
                            project: self.cursor,
                            path: self.project.clone(),
                            reason: SkipReason::MissingManifest,
                        }
                    }
                } else if self.phase == Phase::Probing {
                    if present {
                        self.turn_to(self.cursor + 1)
                    } else {
                        self.phase = Phase::Writing;
                        Action::WriteIndex {
                            project: self.cursor,
                            path: index_of(self.project.as_str()),
                            contents: self.plan.template.clone(),
                        }
                    }
                } else {
                    self.give_up(Failure::OutOfTurn)
                }
            },
            Event::ToolExited { outcome } => {
                match self.phase {
                    Phase::Packaging => self.after_tool(Tool::WasmPack, outcome),
                    Phase::Compiling => self.after_tool(Tool::Cargo, outcome),
                    Phase::Binding => self.after_tool(Tool::WasmBindgen, outcome),
                    _ => self.give_up(Failure::OutOfTurn),
                }
            },
            Event::Done => {
                match self.phase {
                    Phase::Reporting | Phase::Writing => self.turn_to(self.cursor + 1),
                    Phase::Serving => {
                        self.phase = Phase::Completed;
                        Action::Finish
                    },
                    _ => self.give_up(Failure::OutOfTurn),
                }
            },
        }
    }
}

} // verus!
