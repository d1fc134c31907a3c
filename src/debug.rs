//! The traversal trace, recorded only when diagnostic logging is switched on.
use vstd::prelude::*;

verus! {

/// Trace lines of one generation; nothing is recorded unless `enabled`.
#[derive(Debug, PartialEq, Eq)]
pub struct DebugLog {
    pub enabled: bool,
    pub lines: Vec<String>,
}

impl DebugLog {
    /// A log that records lines only when `enabled`.
    pub fn new(enabled: bool) -> (r: DebugLog)
        ensures
            r.enabled == enabled,
            r.lines@.len() == 0,
    {
        DebugLog { enabled, lines: Vec::new() }
    }
}

/// Records `line` in the trace when logging is on; does nothing otherwise.
pub fn debug_print(log: &mut DebugLog, line: String)
    ensures
        final(log).enabled == old(log).enabled,
        old(log).enabled ==> final(log).lines@ == old(log).lines@.push(line),
        !old(log).enabled ==> final(log).lines@ == old(log).lines@,
{
    if log.enabled {
        log.lines.push(line);
    }
}

} // verus!
