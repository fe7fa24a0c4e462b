//! Composition of log lines.
//!
//! The pipeline reports lifecycle and error events as structured text. The
//! functions here compose the exact lines; the hosting process hands them to
//! its logging backend at the matching level. Keeping composition here lets
//! every component be exercised without a live logging subsystem.

use vstd::prelude::*;
use vstd::string::StringExecFns;

verus! {

/// A context heading joined with a message: `context | message`.
pub open spec fn spec_log_line(context: Seq<char>, message: Seq<char>) -> Seq<char> {
    context + " | "@ + message
}

fn compose_line(context: &str, message: &str) -> (line: String)
    ensures
        line@ == spec_log_line(context@, message@),
{
    let mut line = String::new();
    line.append(context);
    line.append(" | ");
    line.append(message);
    assert(line@ =~= spec_log_line(context@, message@));
    line
}

/// Compose an error line with additional context.
pub fn log_error(context: &str, message: &str) -> (line: String)
    ensures
        line@ == spec_log_line(context@, message@),
{
    compose_line(context, message)
}

/// Compose a warning line with additional context.
pub fn log_warning(context: &str, message: &str) -> (line: String)
    ensures
        line@ == spec_log_line(context@, message@),
{
    compose_line(context, message)
}

/// Compose a debug line with additional context.
pub fn log_debug(context: &str, message: &str) -> (line: String)
    ensures
        line@ == spec_log_line(context@, message@),
{
    compose_line(context, message)
}

/// Compose an info line with additional context.
pub fn log_info(context: &str, message: &str) -> (line: String)
    ensures
        line@ == spec_log_line(context@, message@),
{
    compose_line(context, message)
}

/// Compose a plain info line without a context heading.
pub fn log_info_simple(message: &str) -> (line: String)
    ensures
        line@ == message@,
{
    String::from_str(message)
}

/// Compose a plain error line without a context heading.
pub fn log_error_simple(message: &str) -> (line: String)
    ensures
        line@ == message@,
{
    String::from_str(message)
}

} // verus!
