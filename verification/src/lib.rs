//! Runs device shell commands through the `hdc` command-line tool.
//!
//! The library owns the two decisions around the process boundary: which
//! argument vector a command is spawned with, and how the way the process
//! ended is turned into an outcome. Spawning itself is left to the caller.

pub mod invocation;
pub mod laws;
pub mod outcome;
pub mod text;
