//! Per-entry log of process output: a bounded buffer of timestamped lines
//! that keeps the most recent ones.

use std::collections::VecDeque;

use vstd::prelude::*;

verus! {

/// Maximum number of lines retained per entry.
pub const MAX_LOG_LINES: usize = 1000;

/// Which output stream a log line originated from.
#[derive(Debug, Clone, Copy, PartialEq, Eq, Structural)]
pub enum LogStream {
    /// Process stdout.
    Stdout,
    /// Process stderr.
    Stderr,
    /// Internal system message (supervisor lifecycle, not from process).
    System,
}

/// A single line of captured process output.
#[derive(Debug, Clone)]
pub struct LogLine {
    /// Wall-clock timestamp (`HH:MM:SS`) when the line was received.
    pub timestamp: String,
    /// Which stream produced this line.
    pub stream: LogStream,
    /// The text content (no trailing newline).
    pub text: String,
}

/// The local wall-clock time as `HH:MM:SS`: `chrono::Local::now()`
/// rendered with `chrono`'s `format("%H:%M:%S")`, two zero-padded digits
/// each for hour, minute and second, separated by colons. The contract
/// claims only that shape; which time it shows depends on the clock. (Both
/// calls stand in this one item, so that no `chrono::DateTime`, a type
/// generic over chrono's `TimeZone` trait, passes through the rest of the
/// crate.)
#[verifier::external_body]
fn local_clock_hms() -> (r: String)
    ensures
        r@.len() == 8,
        r@[2] == ':',
        r@[5] == ':',
        forall|i: int| 0 <= i < 8 && i != 2 && i != 5 ==> '0' <= #[trigger] r@[i] && r@[i] <= '9',
{
    chrono::Local::now().format("%H:%M:%S").to_string()
}

/// Whether `s` has the clock shape `HH:MM:SS`: two digits, a colon, two
/// digits, a colon, two digits.
pub open spec fn is_hms(s: Seq<char>) -> bool {
    &&& s.len() == 8
    &&& s[2] == ':'
    &&& s[5] == ':'
    &&& forall|i: int| 0 <= i < 8 && i != 2 && i != 5 ==> '0' <= #[trigger] s[i] && s[i] <= '9'
}

/// Bounded buffer of [`LogLine`]s for a single tunnel entry.
#[derive(Debug, Clone)]
pub struct ProcessLog {
    lines: VecDeque<LogLine>,
}

impl View for ProcessLog {
    type V = Seq<LogLine>;

    closed spec fn view(&self) -> Seq<LogLine> {
        self.lines@
    }
}

impl Default for ProcessLog {
    fn default() -> (r: Self)
        ensures
            r@.len() == 0,
            r.wf(),
    {
        ProcessLog::new()
    }
}

impl ProcessLog {
    /// The buffer holds at most [`MAX_LOG_LINES`] lines.
    pub open spec fn wf(&self) -> bool {
        self@.len() <= MAX_LOG_LINES
    }

    /// Create an empty log buffer.
    pub fn new() -> (r: Self)
        ensures
            r@.len() == 0,
            r.wf(),
    {
        ProcessLog { lines: VecDeque::with_capacity(MAX_LOG_LINES) }
    }

    /// Append a line stamped with the local time (`HH:MM:SS`), evicting the
    /// oldest if at capacity.
    pub fn push(&mut self, stream: LogStream, text: String)
        requires
            old(self).wf(),
        ensures
            final(self).wf(),
            ({
                let kept = if old(self)@.len() >= MAX_LOG_LINES {
                    old(self)@.drop_first()
                } else {
                    old(self)@
                };
                &&& final(self)@.len() == kept.len() + 1
                &&& final(self)@.take(kept.len() as int) == kept
                &&& final(self)@.last().stream == stream
                &&& final(self)@.last().text@ == text@
                &&& is_hms(final(self)@.last().timestamp@)
            }),
    {
        broadcast use vstd::std_specs::vecdeque::group_vec_dequeue_axioms;

        if self.lines.len() >= MAX_LOG_LINES {
            self.lines.pop_front();
        }
        let timestamp = local_clock_hms();
        self.lines.push_back(LogLine { timestamp, stream, text });
        proof {
            let kept = if old(self)@.len() >= MAX_LOG_LINES {
                old(self)@.drop_first()
            } else {
                old(self)@
            };
            assert(self@.take(kept.len() as int) =~= kept);
        }
    }

    /// Number of lines currently stored.
    pub fn len(&self) -> (r: usize)
        ensures
            r == self@.len(),
    {
        broadcast use vstd::std_specs::vecdeque::group_vec_dequeue_axioms;

        self.lines.len()
    }

    /// Whether the buffer is empty.
    pub fn is_empty(&self) -> (r: bool)
        ensures
            r == (self@.len() == 0),
    {
        broadcast use vstd::std_specs::vecdeque::group_vec_dequeue_axioms;

        self.lines.len() == 0
    }

    /// The line at position `i`, oldest first.
    pub fn get(&self, i: usize) -> (r: &LogLine)
        requires
            i < self@.len(),
        ensures
            *r == self@[i as int],
    {
        broadcast use vstd::std_specs::vecdeque::group_vec_dequeue_axioms;

        &self.lines[i]
    }

    /// Iterate over all stored lines in chronological order.
    pub fn iter(&self) -> (r: std::collections::vec_deque::Iter<'_, LogLine>)
        ensures
            vstd::std_specs::iter::IteratorSpec::remaining(&r) == self@.map_values(|l: LogLine| &l),
    {
        broadcast use vstd::std_specs::vecdeque::group_vec_dequeue_axioms;

        let r = self.lines.iter();
        assert(self.lines@.as_ref() =~= self@.map_values(|l: LogLine| &l));
        r
    }

    /// Clear all stored lines.
    pub fn clear(&mut self)
        ensures
            final(self)@.len() == 0,
            final(self).wf(),
    {
        self.lines.clear();
    }
}

} // verus!
