//! A thin front end for the `zarf` tool: it chooses what an invocation asks
//! for, locates the tool, forwards arguments to it and turns the way the tool
//! ended into this program's own exit status and diagnostics.
//!
//! Everything that touches the process (reading arguments, spawning, printing)
//! is left to the caller; this crate decides, and proves what it decides.

pub mod command;
pub mod invocation;
pub mod locate;
pub mod status;
