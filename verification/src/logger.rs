//! The text of the session log: its header and its lines.
use vstd::prelude::*;

use crate::text::{push_str, string_of};

verus! {

/// `[<time>][<level>][<module>] <message>` and a line break.
pub open spec fn spec_log_line(
    time: Seq<char>,
    level: Seq<char>,
    module: Seq<char>,
    msg: Seq<char>,
) -> Seq<char> {
    "["@ + time + "]["@ + level + "]["@ + module + "] "@ + msg + "\n"@
}

/// A line of the session log.
pub fn log_line(time: &str, level: &str, module: &str, msg: &str) -> (r: String)
    ensures
        r@ == spec_log_line(time@, level@, module@, msg@),
{
    let mut r = string_of("[");
    push_str(&mut r, time);
    push_str(&mut r, "][");
    push_str(&mut r, level);
    push_str(&mut r, "][");
    push_str(&mut r, module);
    push_str(&mut r, "] ");
    push_str(&mut r, msg);
    push_str(&mut r, "\n");
    r
}

/// The header written when a log file is opened: the session title with
/// its start time, the file's path, and an empty line.
pub open spec fn spec_session_header(time: Seq<char>, path: Seq<char>) -> Seq<char> {
    "=== Rusty Suite Installer — "@ + time + " UTC ===\n"@ + "Log file: "@ + path + "\n\n"@
}

/// The header of a log file.
pub fn session_header(time: &str, path: &str) -> (r: String)
    ensures
        r@ == spec_session_header(time@, path@),
{
    let mut r = string_of("=== Rusty Suite Installer — ");
    push_str(&mut r, time);
    push_str(&mut r, " UTC ===\n");
    push_str(&mut r, "Log file: ");
    push_str(&mut r, path);
    push_str(&mut r, "\n\n");
    r
}

} // verus!
