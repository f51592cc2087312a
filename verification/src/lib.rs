//! Decisions of a build front end for WebAssembly application projects.
//!
//! The front end takes project directories from its command line, checks
//! each for a build manifest, has external tools build it, and gives it a
//! default HTML entry point where it has none. This library holds every
//! decision of that work and none of its effects: a `Session` is told what
//! happened and answers with what to do next.

pub mod laws;
pub mod paths;
pub mod plan;
pub mod policy;
pub mod report;
pub mod scaffold;
pub mod session;
pub mod text;
pub mod tools;
