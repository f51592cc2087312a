//! From a parsed command line to a plan of work.

use vstd::prelude::*;
use crate::text::same_text;

verus! {

/// What a run does once every project has been handled.
#[derive(Clone, Copy, Debug, PartialEq, Eq, Structural)]
pub enum Mode {
    /// Build the projects and stop.
    Build,
    /// Build the projects, then serve the result.
    BuildThenRun,
}

/// Which tools build a project.
#[derive(Clone, Copy, Debug, PartialEq, Eq, Structural)]
pub enum Toolchain {
    /// One run of the packaging tool.
    Packaging,
    /// The native build tool, then the bindings generator.
    Native,
}

/// Why a command line is turned down.
#[derive(Clone, Copy, Debug, PartialEq, Eq, Structural)]
pub enum Rejection {
    /// The subcommand is neither `build` nor `run`.
    UnknownSubcommand,
    /// No project directory was given.
    NoProjects,
}

/// A parsed command line.
#[derive(Clone, Debug, PartialEq, Eq)]
pub struct Invocation {
    /// The name of the subcommand.
    pub subcommand: String,
    /// Whether `--run` was given.
    pub run: bool,
    /// Whether `--release` was given.
    pub release: bool,
    /// The project directories, as they were typed.
    pub project_dirs: Vec<String>,
}

/// What a run needs to know besides the command line.
#[derive(Clone, Debug, PartialEq, Eq)]
pub struct Settings {
    /// The tools that build a project.
    pub toolchain: Toolchain,
    /// Whether a project without a manifest ends the run instead of being
    /// skipped.
    pub strict: bool,
    /// The directory that the front end was started in.
    pub workspace: String,
    /// The text written as a project's entry point where it has none.
    pub template: String,
}

/// The work of one run.
#[derive(Clone, Debug, PartialEq, Eq)]
pub struct Plan {
    /// What the run does once every project has been handled.
    pub mode: Mode,
    /// Whether the tools build optimised code.
    pub release: bool,
    /// The tools that build a project.
    pub toolchain: Toolchain,
    /// Whether a project without a manifest ends the run instead of being
    /// skipped.
    pub strict: bool,
    /// The directory that the front end was started in.
    pub workspace: String,
    /// The text written as a project's entry point where it has none.
    pub template: String,
    /// The project directories, as they were typed, in the order in which
    /// they are handled.
    pub project_dirs: Vec<String>,
}

/// What a `Plan` holds, as mathematical values.
pub struct PlanView {
    pub mode: Mode,
    pub release: bool,
    pub toolchain: Toolchain,
    pub strict: bool,
    pub workspace: Seq<char>,
    pub template: Seq<char>,
    pub project_dirs: Seq<Seq<char>>,
}

impl View for Plan {
    type V = PlanView;

    open spec fn view(&self) -> PlanView {
        PlanView {
            mode: self.mode,
            release: self.release,
            toolchain: self.toolchain,
            strict: self.strict,
            workspace: self.workspace@,
            template: self.template@,
            project_dirs: self.project_dirs.deep_view(),
        }
    }
}

/// The mode that a subcommand and the `--run` flag select: `run` always
/// serves, `build` serves where the flag is set, and no other subcommand is
/// known.
pub open spec fn mode_of(subcommand: Seq<char>, run: bool) -> Option<Mode> {
    if subcommand == "run"@ {
        Some(Mode::BuildThenRun)
    } else if subcommand == "build"@ {
        Some(if run { Mode::BuildThenRun } else { Mode::Build })
    } else {
        None
    }
}

/// What `dispatch` makes of a command line.
pub open spec fn dispatched(invocation: Invocation, settings: Settings) -> Result<
    PlanView,
    Rejection,
> {
    match mode_of(invocation.subcommand@, invocation.run) {
        None => Err(Rejection::UnknownSubcommand),
        Some(mode) => if invocation.project_dirs.len() == 0 {
            Err(Rejection::NoProjects)
        } else {
            Ok(
                PlanView {
                    mode,
                    release: invocation.release,
                    toolchain: settings.toolchain,
                    strict: settings.strict,
                    workspace: settings.workspace@,
                    template: settings.template@,
                    project_dirs: invocation.project_dirs.deep_view(),
                },
            )
        },
    }
}

/// Selects the mode for a subcommand name and the `--run` flag.
pub fn select_mode(subcommand: &str, run: bool) -> (mode: Option<Mode>)
    ensures
        mode == mode_of(subcommand@, run),
{
    if same_text(subcommand, "run") {
        Some(Mode::BuildThenRun)
    } else if same_text(subcommand, "build") {
        if run {
            Some(Mode::BuildThenRun)
        } else {
            Some(Mode::Build)
        }
    } else {
        None
    }
}

/// Turns a parsed command line into a plan, or turns it down: an unknown
/// subcommand first, then a command line without project directories.
pub fn dispatch(invocation: Invocation, settings: Settings) -> (outcome: Result<Plan, Rejection>)
    ensures
        match outcome {
            Ok(plan) => dispatched(invocation, settings) == Ok::<PlanView, Rejection>(plan@),
            Err(rejection) => dispatched(invocation, settings) == Err::<PlanView, Rejection>(
                rejection,
            ),
        },
{
    match select_mode(invocation.subcommand.as_str(), invocation.run) {
        None => Err(Rejection::UnknownSubcommand),
        Some(mode) => {
            if invocation.project_dirs.len() == 0 {
                Err(Rejection::NoProjects)
            } else {
                Ok(
                    Plan {
                        mode,
                        release: invocation.release,
                        toolchain: settings.toolchain,
                        strict: settings.strict,
                        workspace: settings.workspace,
                        template: settings.template,
                        project_dirs: invocation.project_dirs,
                    },
                )
            }
        },
    }
}

} // verus!
