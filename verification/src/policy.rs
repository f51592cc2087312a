//! Which project directories the native build leaves out.
//!
//! The native build path does not build a directory whose name ends in
//! `_wp`, nor the directory called `multi_thread`. The packaging path has no
//! such exceptions. The rule is kept as one predicate so that it is applied
//! in one place and can be read in one place.

use vstd::prelude::*;
use crate::text::{ends_with, has_suffix, same_text};

verus! {

/// The suffix that marks a directory as left out of the native build.
pub open spec fn excluded_suffix() -> Seq<char> {
    "_wp"@
}

/// The one directory name that the native build leaves out by name.
pub open spec fn excluded_name() -> Seq<char> {
    "multi_thread"@
}

/// Whether the native build leaves out the directory called `name`.
pub open spec fn excluded(name: Seq<char>) -> bool {
    has_suffix(name, excluded_suffix()) || name == excluded_name()
}

/// Tells whether the native build leaves out the directory called `name`.
pub fn is_excluded(name: &str) -> (out: bool)
    ensures
        out == excluded(name@),
{
    ends_with(name, "_wp") || same_text(name, "multi_thread")
}

} // verus!
