//! The external tools and the exact command line that each one is started
//! with.

use vstd::prelude::*;
use crate::paths::{artifact_of, artifact_path};

verus! {

/// An external program that does part of a build.
#[derive(Clone, Copy, Debug, PartialEq, Eq, Structural)]
pub enum Tool {
    /// The WebAssembly packaging tool.
    WasmPack,
    /// The native build tool.
    Cargo,
    /// The bindings generator.
    WasmBindgen,
}

/// The name under which `tool` is looked up and started.
pub open spec fn program_name(tool: Tool) -> Seq<char> {
    match tool {
        Tool::WasmPack => "wasm-pack"@,
        Tool::Cargo => "cargo"@,
        Tool::WasmBindgen => "wasm-bindgen"@,
    }
}

/// The flag that selects the optimisation level of a packaging run.
pub open spec fn mode_flag(release: bool) -> Seq<char> {
    if release {
        "--release"@
    } else {
        "--dev"@
    }
}

/// The arguments of the packaging tool: a build for the web, written to the
/// `static` directory of the project under the base name `wasm`.
pub open spec fn wasm_pack_args(release: bool) -> Seq<Seq<char>> {
    seq![
        "build"@,
        mode_flag(release),
        "--target"@,
        "web"@,
        "--out-name"@,
        "wasm"@,
        "--out-dir"@,
        "./static"@,
    ]
}

/// The arguments of the native build tool: a build for the WebAssembly
/// target, optimised only where `release` is set.
pub open spec fn cargo_args(release: bool) -> Seq<Seq<char>> {
    if release {
        seq!["build"@, "--release"@, "--target"@, "wasm32-unknown-unknown"@]
    } else {
        seq!["build"@, "--target"@, "wasm32-unknown-unknown"@]
    }
}

/// The arguments of the bindings generator for the binary at `artifact`.
pub open spec fn bindgen_args(artifact: Seq<char>) -> Seq<Seq<char>> {
    seq![
        "--target"@,
        "web"@,
        "--no-typescript"@,
        "--out-dir"@,
        "static/"@,
        "--out-name"@,
        "wasm"@,
        artifact,
    ]
}

/// One start of an external tool.
#[derive(Clone, Debug, PartialEq, Eq)]
pub struct ToolCommand {
    /// The program to start.
    pub tool: Tool,
    /// Its arguments, in order.
    pub args: Vec<String>,
    /// The directory it is started in.
    pub working_dir: String,
    /// Whether its standard output is collected and printed once it has
    /// ended, rather than connected to the caller's own.
    pub capture_output: bool,
}

/// What a `ToolCommand` holds, as mathematical values.
pub struct CommandView {
    pub tool: Tool,
    pub args: Seq<Seq<char>>,
    pub working_dir: Seq<char>,
    pub capture_output: bool,
}

impl View for ToolCommand {
    type V = CommandView;

    open spec fn view(&self) -> CommandView {
        CommandView {
            tool: self.tool,
            args: self.args.deep_view(),
            working_dir: self.working_dir@,
            capture_output: self.capture_output,
        }
    }
}

/// The packaging run for the project at `project`.
pub open spec fn packaging_of(release: bool, project: Seq<char>) -> CommandView {
    CommandView {
        tool: Tool::WasmPack,
        args: wasm_pack_args(release),
        working_dir: project,
        capture_output: false,
    }
}

/// The native build of the project at `project`.
pub open spec fn compilation_of(release: bool, project: Seq<char>) -> CommandView {
    CommandView {
        tool: Tool::Cargo,
        args: cargo_args(release),
        working_dir: project,
        capture_output: true,
    }
}

/// The bindings generation for the project called `name` at `project`, whose
/// binary lies below `workspace`.
pub open spec fn binding_of(workspace: Seq<char>, name: Seq<char>, project: Seq<char>)
    -> CommandView {
    CommandView {
        tool: Tool::WasmBindgen,
        args: bindgen_args(artifact_path(workspace, name)),
        working_dir: project,
        capture_output: true,
    }
}

impl Tool {
    /// The name under which the tool is started.
    pub fn program(&self) -> (name: &'static str)
        ensures
            name@ == program_name(*self),
    {
        match self {
            Tool::WasmPack => "wasm-pack",
            Tool::Cargo => "cargo",
            Tool::WasmBindgen => "wasm-bindgen",
        }
    }
}

impl ToolCommand {
    /// The command that packages the project at `project`.
    pub fn packaging(release: bool, project: &str) -> (command: ToolCommand)
        ensures
            command@ == packaging_of(release, project@),
    {
        let mut args: Vec<String> = Vec::new();
        args.push(String::from_str("build"));
        if release {
            args.push(String::from_str("--release"));
        } else {
            args.push(String::from_str("--dev"));
        }
        args.push(String::from_str("--target"));
        args.push(String::from_str("web"));
        args.push(String::from_str("--out-name"));
        args.push(String::from_str("wasm"));
        args.push(String::from_str("--out-dir"));
        args.push(String::from_str("./static"));
        assert(args.deep_view() =~= wasm_pack_args(release));
        ToolCommand {
            tool: Tool::WasmPack,
            args,
            working_dir: String::from_str(project),
            capture_output: false,
        }
    }

    /// The command that compiles the project at `project` natively.
    pub fn compilation(release: bool, project: &str) -> (command: ToolCommand)
        ensures
            command@ == compilation_of(release, project@),
    {
        let mut args: Vec<String> = Vec::new();
        args.push(String::from_str("build"));
        if release {
            args.push(String::from_str("--release"));
        }
        args.push(String::from_str("--target"));
        args.push(String::from_str("wasm32-unknown-unknown"));
        assert(args.deep_view() =~= cargo_args(release));
        ToolCommand {
            tool: Tool::Cargo,
            args,
            working_dir: String::from_str(project),
            capture_output: true,
        }
    }

    /// The command that generates the bindings for the project called `name`
    /// at `project`, from the binary that its native build left below
    /// `workspace`.
    pub fn binding(workspace: &str, name: &str, project: &str) -> (command: ToolCommand)
        ensures
            command@ == binding_of(workspace@, name@, project@),
    {
        let mut args: Vec<String> = Vec::new();
        args.push(String::from_str("--target"));
        args.push(String::from_str("web"));
        args.push(String::from_str("--no-typescript"));
        args.push(String::from_str("--out-dir"));
        args.push(String::from_str("static/"));
        args.push(String::from_str("--out-name"));
        args.push(String::from_str("wasm"));
        args.push(artifact_of(workspace, name));
        assert(args.deep_view() =~= bindgen_args(artifact_path(workspace@, name@)));
        ToolCommand {
            tool: Tool::WasmBindgen,
            args,
            working_dir: String::from_str(project),
            capture_output: true,
        }
    }
}

/// A release build of the packaging tool differs from a development build
/// in the mode flag alone: `--release` stands where `--dev` stood, and every
/// other argument keeps its place and its text.
pub proof fn release_replaces_only_the_mode_flag()
    ensures
        wasm_pack_args(false)[1] == "--dev"@,
        wasm_pack_args(true)[1] == "--release"@,
        "--release"@ != "--dev"@,
        wasm_pack_args(true) == wasm_pack_args(false).update(1, "--release"@),
        wasm_pack_args(true).len() == wasm_pack_args(false).len(),
        forall|i: int|
            0 <= i < wasm_pack_args(false).len() && i != 1 ==> wasm_pack_args(true)[i]
                == wasm_pack_args(false)[i],
{
    reveal_strlit("--release");
    reveal_strlit("--dev");
    assert("--release"@.len() != "--dev"@.len());
    assert(wasm_pack_args(true) =~= wasm_pack_args(false).update(1, "--release"@));
}

/// A release build of the native build tool is the development build with
/// `--release` put in after the subcommand; nothing else changes.
pub proof fn release_adds_one_flag_to_the_native_build()
    ensures
        cargo_args(true) == cargo_args(false).insert(1, "--release"@),
        !cargo_args(false).contains("--release"@),
{
    reveal_strlit("--release");
    reveal_strlit("build");
    reveal_strlit("--target");
    reveal_strlit("wasm32-unknown-unknown");
    assert(cargo_args(true) =~= cargo_args(false).insert(1, "--release"@));
    assert("--release"@.len() == 9);
    assert("build"@.len() == 5);
    assert("--target"@.len() == 8);
    assert("wasm32-unknown-unknown"@.len() == 22);
}

} // verus!
