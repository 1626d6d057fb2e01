//! One-shot dispatch of a parsed invocation to an action.
//!
//! The help and version flags short-circuit everything else: a run that
//! carries one of them never reaches configuration resolution or the
//! database. Otherwise the parsed command decides between running the
//! migrations, showing usage, and rejecting an unknown command.

use vstd::prelude::*;
use vstd::string::StringExecFns;
use crate::Command;

verus! {

/// What one process invocation is to do. Exactly one directive is
/// produced per invocation and the process exits after acting on it.
#[derive(Debug, PartialEq)]
pub enum Directive {
    /// Print the version string and exit successfully.
    ShowVersion,
    /// Print the usage text and exit successfully.
    ShowUsage,
    /// Resolve the configuration, connect, and run the migrations.
    RunInit,
    /// Print the unrecognized command and the usage text, and exit with
    /// a failure code.
    RejectUnknown(String),
}

/// Decide what the invocation does. The version flag wins over the help
/// flag, and either flag wins over any command; the migrations run
/// exactly when neither flag is set and the command is `Init`.
pub fn dispatch(version_requested: bool, help_requested: bool, command: Command) -> (r: Directive)
    ensures
        version_requested ==> r is ShowVersion,
        !version_requested && help_requested ==> r is ShowUsage,
        !version_requested && !help_requested ==> match command {
            Command::Init => r is RunInit,
            Command::Absent => r is ShowUsage,
            Command::Unknown(s) => r matches Directive::RejectUnknown(t) && t == s,
        },
        r is RunInit <==> (!version_requested && !help_requested && command is Init),
{
    if version_requested {
        Directive::ShowVersion
    } else if help_requested {
        Directive::ShowUsage
    } else {
        match command {
            Command::Init => Directive::RunInit,
            Command::Absent => Directive::ShowUsage,
            Command::Unknown(s) => Directive::RejectUnknown(s),
        }
    }
}

/// The process exit code for a directive: failure exactly for an
/// unknown command, success for everything else.
pub fn exit_code(directive: &Directive) -> (r: i32)
    ensures
        directive is RejectUnknown ==> r == 1,
        !(directive is RejectUnknown) ==> r == 0,
{
    match directive {
        Directive::RejectUnknown(_) => 1,
        _ => 0,
    }
}

/// The usage text shown for help requests, missing commands, and
/// unknown commands.
pub open spec fn spec_usage_text() -> Seq<char> {
    "\nTechnopolis backend\n\nUsage:\n    Technopolis [<command>]\n    Technopolis [options]\n\nOptions:\n    -h --help       Show this screen.\n    --version       Show version.\n"@
}

/// The usage text shown for help requests, missing commands, and
/// unknown commands.
pub fn usage_text() -> (r: &'static str)
    ensures
        r@ == spec_usage_text(),
{
    "\nTechnopolis backend\n\nUsage:\n    Technopolis [<command>]\n    Technopolis [options]\n\nOptions:\n    -h --help       Show this screen.\n    --version       Show version.\n"
}

/// The rejection line for an unknown command, carrying the command text
/// as the user spelled it.
pub fn unknown_command_message(text: &str) -> (r: String)
    ensures
        r@ == text@ + " is an unknown command."@,
{
    let mut s = text.to_owned();
    s.append(" is an unknown command.");
    s
}

} // verus!
