//! Command-line migration tool core: command parsing, connection
//! configuration resolution, and ordered, idempotent migration
//! orchestration against a persistent ledger.

use vstd::prelude::*;

pub mod command;
pub mod config;
pub mod dispatch;
pub mod orchestrator;
pub mod text;

verus! {

/// The closed set of subcommands the tool understands.
#[derive(Debug, PartialEq)]
pub enum Command {
    /// Run the pending migrations.
    Init,
    /// No subcommand was given.
    Absent,
    /// An unrecognized subcommand, carrying the original text for display.
    Unknown(String),
}

} // verus!
