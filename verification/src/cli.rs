//! Command-line surface of the tool, as plain data.
//!
//! The shell parses the actual command line into these values; the library
//! only consumes them.

use vstd::prelude::*;

verus! {

/// The invocation of the tool: the subcommand forwarded to the external
/// toolchain and the pass-through arguments that follow it.
pub struct DylibCli {
    pub subcommand: String,
    pub arguments: Vec<String>,
}

/// The tool as the toolchain sees it: one subcommand family.
pub enum Cargo {
    Dylib(DylibCli),
}

} // verus!
