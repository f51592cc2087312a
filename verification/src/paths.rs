//! Paths as text: the marker that some platforms put before a canonical
//! path, and the places inside a project directory that the front end looks
//! at or writes to.
//!
//! A path is a plain string. Components are joined with `/`, which every
//! supported platform accepts once the extended-length marker is gone.

use vstd::prelude::*;
use crate::text::{chain, has_prefix, starts_with, tail_from};

verus! {

/// The extended-length marker: two backslashes, a question mark, a backslash.
pub open spec fn extended_length_marker() -> Seq<char> {
    seq!['\\', '\\', '?', '\\']
}

/// `path` without a leading extended-length marker.
pub open spec fn without_marker(path: Seq<char>) -> Seq<char> {
    if has_prefix(path, extended_length_marker()) {
        path.skip(4)
    } else {
        path
    }
}

/// `base` with `leaf` below it: a `/` is put between the two unless `base`
/// is empty or already ends with one.
pub open spec fn joined(base: Seq<char>, leaf: Seq<char>) -> Seq<char> {
    if base.len() == 0 || base.last() == '/' {
        base + leaf
    } else {
        base + seq!['/'] + leaf
    }
}

/// Where the build manifest of `project` is expected.
pub open spec fn manifest_path(project: Seq<char>) -> Seq<char> {
    joined(project, "Cargo.toml"@)
}

/// The directory of `project` that receives the build's output.
pub open spec fn static_dir(project: Seq<char>) -> Seq<char> {
    joined(project, "static"@)
}

/// Where the HTML entry point of `project` is expected.
pub open spec fn index_path(project: Seq<char>) -> Seq<char> {
    joined(static_dir(project), "index.html"@)
}

/// Where the native build leaves the binary of the project called `name`,
/// below the directory `workspace` that the front end was started in.
pub open spec fn artifact_path(workspace: Seq<char>, name: Seq<char>) -> Seq<char> {
    joined(joined(joined(workspace, "target"@), "wasm32-unknown-unknown"@), name + ".wasm"@)
}

/// Removes a leading extended-length marker from a canonical path, so that
/// the text of a path is the same on every platform.
pub fn strip_marker(path: &str) -> (stripped: String)
    ensures
        stripped@ == without_marker(path@),
{
    proof {
        reveal_strlit("\\\\?\\");
        assert("\\\\?\\"@ =~= extended_length_marker());
    }
    if starts_with(path, "\\\\?\\") {
        tail_from(path, 4)
    } else {
        String::from_str(path)
    }
}

/// Puts `leaf` below `base`.
pub fn join(base: &str, leaf: &str) -> (path: String)
    ensures
        path@ == joined(base@, leaf@),
{
    proof {
        reveal_strlit("/");
        assert("/"@ =~= seq!['/']);
    }
    let n: usize = base.unicode_len();
    if n == 0 || base.get_char(n - 1) == '/' {
        chain(base, leaf)
    } else {
        String::from_str(base).concat("/").concat(leaf)
    }
}

/// The path of the build manifest of `project`.
pub fn manifest_of(project: &str) -> (path: String)
    ensures
        path@ == manifest_path(project@),
{
    join(project, "Cargo.toml")
}

/// The path of the HTML entry point of `project`.
pub fn index_of(project: &str) -> (path: String)
    ensures
        path@ == index_path(project@),
{
    let dir = join(project, "static");
    join(dir.as_str(), "index.html")
}

/// The path of the binary that the native build produces for the project
/// called `name`.
pub fn artifact_of(workspace: &str, name: &str) -> (path: String)
    ensures
        path@ == artifact_path(workspace@, name@),
{
    let target = join(workspace, "target");
    let triple = join(target.as_str(), "wasm32-unknown-unknown");
    let file = chain(name, ".wasm");
    join(triple.as_str(), file.as_str())
}

} // verus!
