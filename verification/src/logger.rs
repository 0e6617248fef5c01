//! A log that keeps its newest lines in memory.

use vstd::prelude::*;
use vstd::string::StringExecFns;

verus! {

/// Number of lines that the log of the service keeps.
pub const MAX_LINES: usize = 5000;

/// What is left of `lines` when only the newest `max_lines` are kept.
pub open spec fn newest(lines: Seq<String>, max_lines: nat) -> Seq<String> {
    if lines.len() > max_lines {
        lines.subrange(lines.len() - max_lines, lines.len() as int)
    } else {
        lines
    }
}

/// The text of a log entry: time, level and message.
pub open spec fn format_entry_spec(time: Seq<char>, level: Seq<char>, message: Seq<char>) -> Seq<
    char,
> {
    time + " :: "@ + level + " - "@ + message
}

/// Formats a log entry as `time :: level - message`.
pub fn format_entry(time: &str, level: &str, message: &str) -> (r: String)
    ensures
        r@ == format_entry_spec(time@, level@, message@),
{
    let mut entry = time.to_owned();
    entry.append(" :: ");
    entry.append(level);
    entry.append(" - ");
    entry.append(message);
    entry
}

/// A log that holds at most `max_lines` lines, oldest first.
pub struct MemoryLogger {
    pub max_lines: usize,
    pub logs: Vec<String>,
}

impl MemoryLogger {
    /// An empty log that keeps `max_lines` lines.
    pub fn new(max_lines: usize) -> (r: Self)
        ensures
            r.max_lines == max_lines,
            r.logs@ == Seq::<String>::empty(),
    {
        MemoryLogger { max_lines, logs: Vec::new() }
    }

    /// Appends an entry and drops the oldest lines beyond the limit.
    pub fn log(&mut self, log_entry: String)
        ensures
            final(self).max_lines == old(self).max_lines,
            final(self).logs@ == newest(old(self).logs@.push(log_entry), old(self).max_lines as nat),
    {
        self.logs.push(log_entry);
        let ghost all = self.logs@;
        while self.logs.len() > self.max_lines
            invariant
                self.max_lines == old(self).max_lines,
                self.logs@.len() <= all.len(),
                self.logs@.len() >= self.max_lines || self.logs@.len() == all.len(),
                self.logs@ =~= all.subrange(all.len() - self.logs@.len(), all.len() as int),
            decreases self.logs@.len(),
        {
            self.logs.remove(0);
        }
    }
}

/// A copy of the lines that a log holds, oldest first.
pub fn get_logs(logger: &MemoryLogger) -> (r: Vec<String>)
    ensures
        r@ == logger.logs@,
{
    let mut lines: Vec<String> = Vec::new();
    let mut i: usize = 0;
    while i < logger.logs.len()
        invariant
            i <= logger.logs@.len(),
            lines@ == logger.logs@.subrange(0, i as int),
        decreases logger.logs@.len() - i,
    {
        lines.push(logger.logs[i].clone());
        i += 1;
    }
    lines
}

/// The log of the service: empty, with room for 5000 lines.
pub fn setup_logger() -> (r: MemoryLogger)
    ensures
        r.max_lines == MAX_LINES,
        r.logs@ == Seq::<String>::empty(),
{
    MemoryLogger::new(MAX_LINES)
}

} // verus!
