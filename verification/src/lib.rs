//! Verified core of a build accelerator that rewrites a project's manifest so
//! that every top-level dependency is compiled once into a dynamic library and
//! then linked, instead of being recompiled on every build.
//!
//! The library holds the manifest transformation engine: the data model of a
//! project manifest, the generator that plans one wrapper unit per dependency,
//! the synthesizer that derives a rewritten manifest, the staleness check that
//! gates regeneration, and the exit-code and argument plumbing for the external
//! toolchain. Reading and writing files, spawning the toolchain and parsing the
//! command line are left to a thin unverified shell around this crate.

pub mod cli;
pub mod forward;
pub mod manifest;
pub mod paths;
pub mod render;
pub mod staleness;
pub mod synth;
pub mod text;
pub mod utils;
pub mod wrapper;
