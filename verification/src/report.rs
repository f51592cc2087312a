//! The words in which a run tells its user what it skipped and why it gave
//! up. Every text is fixed here, so that a caller only has to print it.

use vstd::prelude::*;
use crate::plan::Rejection;
use crate::session::{Failure, FailureView, SkipReason};
use crate::text::chain;
use crate::tools::{program_name, Tool};

verus! {

/// The text of one decimal digit.
pub open spec fn digit(d: nat) -> Seq<char> {
    if d == 0 {
        "0"@
    } else if d == 1 {
        "1"@
    } else if d == 2 {
        "2"@
    } else if d == 3 {
        "3"@
    } else if d == 4 {
        "4"@
    } else if d == 5 {
        "5"@
    } else if d == 6 {
        "6"@
    } else if d == 7 {
        "7"@
    } else if d == 8 {
        "8"@
    } else {
        "9"@
    }
}

/// The decimal digits of `n`, without leading zeros.
pub open spec fn decimal(n: nat) -> Seq<char>
    decreases n,
{
    if n < 10 {
        digit(n)
    } else {
        decimal(n / 10) + digit(n % 10)
    }
}

/// The decimal text of `i`, with a minus sign where it is negative.
pub open spec fn signed_decimal(i: int) -> Seq<char> {
    if i < 0 {
        "-"@ + decimal((-i) as nat)
    } else {
        decimal(i as nat)
    }
}

/// Why a command line was turned down.
pub open spec fn rejection_text(rejection: Rejection) -> Seq<char> {
    match rejection {
        Rejection::UnknownSubcommand => "unknown subcommand"@,
        Rejection::NoProjects => "No project directory specified"@,
    }
}

/// That the project at `path` is skipped, and why.
pub open spec fn skip_text(path: Seq<char>, reason: SkipReason) -> Seq<char> {
    match reason {
        SkipReason::MissingManifest => "skipping "@ + path + ": no Cargo.toml found"@,
        SkipReason::Excluded => "skipping "@ + path + ": left out of the native build"@,
    }
}

/// How a tool ended that reported failure.
pub open spec fn exit_text(code: Option<i32>) -> Seq<char> {
    match code {
        Some(c) => " exited with code "@ + signed_decimal(c as int),
        None => " ended without an exit code"@,
    }
}

/// Why a run was given up. A failed build names the tool, its exit code and
/// the project.
pub open spec fn failure_text(failure: FailureView) -> Seq<char> {
    match failure {
        FailureView::Unresolvable { dir } => "cannot resolve project directory "@ + dir,
        FailureView::MissingManifest { project } => "no Cargo.toml found in "@ + project,
        FailureView::NotStarted { project, tool } => "failed to start "@ + program_name(tool)
            + " in "@ + project,
        FailureView::BuildFailed { project, tool, code } => "build failed: "@ + program_name(
            tool,
        ) + exit_text(code) + " in "@ + project,
        FailureView::OutOfTurn => "a report arrived that the run was not waiting for"@,
    }
}

fn digit_str(d: u64) -> (text: &'static str)
    requires
        d < 10,
    ensures
        text@ == digit(d as nat),
{
    if d == 0 {
        "0"
    } else if d == 1 {
        "1"
    } else if d == 2 {
        "2"
    } else if d == 3 {
        "3"
    } else if d == 4 {
        "4"
    } else if d == 5 {
        "5"
    } else if d == 6 {
        "6"
    } else if d == 7 {
        "7"
    } else if d == 8 {
        "8"
    } else {
        "9"
    }
}

/// Writes `n` in decimal.
pub fn render_natural(n: u64) -> (text: String)
    ensures
        text@ == decimal(n as nat),
    decreases n,
{
    if n < 10 {
        String::from_str(digit_str(n))
    } else {
        render_natural(n / 10).concat(digit_str(n % 10))
    }
}

/// Writes an exit code in decimal.
pub fn render_code(code: i32) -> (text: String)
    ensures
        text@ == signed_decimal(code as int),
{
    if code < 0 {
        let magnitude: u64 = (-(code as i64)) as u64;
        String::from_str("-").concat(render_natural(magnitude).as_str())
    } else {
        render_natural(code as u64)
    }
}

/// The text that tells why a command line was turned down.
pub fn rejection_notice(rejection: Rejection) -> (text: String)
    ensures
        text@ == rejection_text(rejection),
{
    match rejection {
        Rejection::UnknownSubcommand => String::from_str("unknown subcommand"),
        Rejection::NoProjects => String::from_str("No project directory specified"),
    }
}

/// The text that tells that the project at `path` is skipped.
pub fn skip_notice(path: &str, reason: SkipReason) -> (text: String)
    ensures
        text@ == skip_text(path@, reason),
{
    let start = chain("skipping ", path);
    match reason {
        SkipReason::MissingManifest => start.concat(": no Cargo.toml found"),
        SkipReason::Excluded => start.concat(": left out of the native build"),
    }
}

fn exit_notice(code: Option<i32>) -> (text: String)
    ensures
        text@ == exit_text(code),
{
    match code {
        Some(c) => String::from_str(" exited with code ").concat(render_code(c).as_str()),
        None => String::from_str(" ended without an exit code"),
    }
}

/// The text that tells why a run was given up.
pub fn failure_notice(failure: &Failure) -> (text: String)
    ensures
        text@ == failure_text(failure@),
{
    match failure {
        Failure::Unresolvable { dir } => chain("cannot resolve project directory ", dir.as_str()),
        Failure::MissingManifest { project } => chain("no Cargo.toml found in ", project.as_str()),
        Failure::NotStarted { project, tool } => {
            String::from_str("failed to start ").concat(tool.program()).concat(" in ").concat(
                project.as_str(),
            )
        },
        Failure::BuildFailed { project, tool, code } => {
            String::from_str("build failed: ").concat(tool.program()).concat(
                exit_notice(*code).as_str(),
            ).concat(" in ").concat(project.as_str())
        },
        Failure::OutOfTurn => String::from_str(
            "a report arrived that the run was not waiting for",
        ),
    }
}

} // verus!
