//! Level-tagged log lines. The library only composes the text; the sink that
//! owns the log file prepends its timestamp and writes, so nothing here does
//! input or output.

use vstd::prelude::*;

use crate::text::{push_str_chars, string_from_chars};

verus! {

/// A level tag and a message, bracketed the way the log file shows them.
pub open spec fn log_line_spec(level: Seq<char>, msg: Seq<char>) -> Seq<char> {
    "["@ + level + "] "@ + msg
}

/// Composes the level-tagged body of a log line.
pub fn log_line(level: &str, msg: &str) -> (r: String)
    ensures
        r@ == log_line_spec(level@, msg@),
{
    let mut out: Vec<char> = Vec::new();
    push_str_chars(&mut out, "[");
    push_str_chars(&mut out, level);
    push_str_chars(&mut out, "] ");
    push_str_chars(&mut out, msg);
    proof {
        assert(out@ =~= log_line_spec(level@, msg@));
    }
    string_from_chars(out)
}

/// An info message.
pub fn info(msg: &str) -> (r: String)
    ensures
        r@ == log_line_spec("INFO"@, msg@),
{
    log_line("INFO", msg)
}

/// A warning message.
pub fn warn(msg: &str) -> (r: String)
    ensures
        r@ == log_line_spec("WARN"@, msg@),
{
    log_line("WARN", msg)
}

/// An error message.
pub fn error(msg: &str) -> (r: String)
    ensures
        r@ == log_line_spec("ERROR"@, msg@),
{
    log_line("ERROR", msg)
}

/// A debug message.
pub fn debug(msg: &str) -> (r: String)
    ensures
        r@ == log_line_spec("DEBUG"@, msg@),
{
    log_line("DEBUG", msg)
}

} // verus!
