//! A logger that marks debugging output as event lines.

use vstd::prelude::*;

verus! {

/// The text that begins every logged line.
pub open spec fn event_prefix() -> Seq<char> {
    "[EVENT] "@
}

/// Writes miniquad events as marked lines for inspection during manual
/// testing. The library forms each line; printing it is left to the caller.
pub struct EventLogger;

impl EventLogger {
    /// A logger.
    pub fn new() -> (l: Self) {
        EventLogger
    }

    /// The line that logging `msg` prints: `msg` behind the event marker.
    pub fn format_entry(&self, msg: &str) -> (line: String)
        ensures
            line@ == event_prefix() + msg@,
    {
        let prefix = String::from_str("[EVENT] ");
        proof {
            reveal_strlit("[EVENT] ");
        }
        prefix.concat(msg)
    }
}

impl Default for EventLogger {
    fn default() -> (l: Self) {
        Self::new()
    }
}

} // verus!
