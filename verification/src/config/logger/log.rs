//! The history of what was logged, which the log viewer shows.

use vstd::prelude::*;

use crate::config::expand_clock_keys;
use crate::config::logger::Level;
use crate::data::MAX_LOG_HISTORY_CACHE;

verus! {

/// A log line: when it was logged, how severe it is, and what it says.
pub type Line = (String, Level, String);

/// What a log line holds.
pub type LineView = (Seq<char>, Level, Seq<char>);

/// What a log line holds.
pub open spec fn line_view(line: Line) -> LineView {
    (line.0@, line.1, line.2@)
}

/// The log lines that were kept, oldest first.
#[derive(Debug)]
pub struct LogHistory {
    pub lines: Vec<Line>,
}

impl View for LogHistory {
    type V = Seq<LineView>;

    open spec fn view(&self) -> Seq<LineView> {
        self.lines@.map_values(|line: Line| line_view(line))
    }
}

/// The history after old lines were dropped to make room: a history of
/// more than the most lines loses its oldest lines, fifty fewer than the
/// most; any other history stays as it is.
pub open spec fn cleaned(lines: Seq<LineView>) -> Seq<LineView> {
    if lines.len() > MAX_LOG_HISTORY_CACHE {
        lines.skip(MAX_LOG_HISTORY_CACHE - 50)
    } else {
        lines
    }
}

/// The lines from position `start` on, and none where the history is
/// shorter than that.
pub open spec fn listed(lines: Seq<LineView>, start: int) -> Seq<LineView> {
    if 0 <= start <= lines.len() {
        lines.skip(start)
    } else {
        Seq::empty()
    }
}

impl LogHistory {
    /// An empty history.
    pub fn new() -> (h: LogHistory)
        ensures
            h@ == Seq::<LineView>::empty(),
    {
        let h = LogHistory { lines: Vec::new() };
        h
    }

    /// Drops old lines to make room.
    fn clean_up_fifo(&mut self)
        ensures
            final(self)@ == cleaned(old(self)@),
    {
        if self.lines.len() > MAX_LOG_HISTORY_CACHE {
            let end: usize = MAX_LOG_HISTORY_CACHE - 50;
            let rest = self.lines.split_off(end);
            self.lines = rest;
        }
    }

    /// Adds a line that was logged at `stamp`, after old lines were
    /// dropped to make room.
    pub fn record(&mut self, stamp: String, level: Level, msg: String)
        ensures
            final(self)@ == cleaned(old(self)@).push((stamp@, level, msg@)),
    {
        self.clean_up_fifo();
        self.lines.push((stamp, level, msg));
    }

    /// Adds a line that is logged now. The line is stamped with the date
    /// and the time in square brackets, of which nothing is known here,
    /// and with nothing where the stamp cannot be made.
    pub fn add_log(&mut self, level: Level, msg: String)
        ensures
            final(self)@.len() == cleaned(old(self)@).len() + 1,
            final(self)@.drop_last() == cleaned(old(self)@),
            final(self)@.last().1 == level,
            final(self)@.last().2 == msg@,
    {
        let stamp = match expand_clock_keys("[{date} {time}]") {
            Ok(stamp) => stamp,
            Err(_) => String::new(),
        };
        self.record(stamp, level, msg);
    }

    /// The lines from position `start` on.
    pub fn list(&self, start: usize) -> (out: Vec<Line>)
        ensures
            out@.map_values(|line: Line| line_view(line)) == listed(self@, start as int),
    {
        let mut out: Vec<Line> = Vec::new();
        if start <= self.lines.len() {
            let mut i: usize = start;
            while i < self.lines.len()
                invariant
                    start <= i <= self.lines.len(),
                    out@.len() == i - start,
                    forall|j: int|
                        0 <= j < out@.len() ==> line_view(#[trigger] out@[j]) == line_view(
                            self.lines@[start + j],
                        ),
                decreases self.lines.len() - i,
            {
                let line = &self.lines[i];
                out.push((line.0.clone(), line.1, line.2.clone()));
                i = i + 1;
            }
        }
        out
    }

    /// The number of lines.
    pub fn len(&self) -> (n: usize)
        ensures
            n == self@.len(),
    {
        self.lines.len()
    }

    /// Drops every line.
    pub fn clean_all(&mut self)
        ensures
            final(self)@ == Seq::<LineView>::empty(),
    {
        self.lines.clear();
    }

    /// Adds an error that is logged now.
    pub fn error(&mut self, msg: String)
        ensures
            final(self)@.len() == cleaned(old(self)@).len() + 1,
            final(self)@.drop_last() == cleaned(old(self)@),
            final(self)@.last().1 == Level::Error,
            final(self)@.last().2 == msg@,
    {
        self.add_log(Level::Error, msg)
    }

    /// Adds a warning that is logged now.
    pub fn warn(&mut self, msg: String)
        ensures
            final(self)@.len() == cleaned(old(self)@).len() + 1,
            final(self)@.drop_last() == cleaned(old(self)@),
            final(self)@.last().1 == Level::Warn,
            final(self)@.last().2 == msg@,
    {
        self.add_log(Level::Warn, msg)
    }

    /// Adds a piece of information that is logged now.
    pub fn info(&mut self, msg: String)
        ensures
            final(self)@.len() == cleaned(old(self)@).len() + 1,
            final(self)@.drop_last() == cleaned(old(self)@),
            final(self)@.last().1 == Level::Info,
            final(self)@.last().2 == msg@,
    {
        self.add_log(Level::Info, msg)
    }

    /// Adds a line for debugging that is logged now.
    pub fn debug(&mut self, msg: String)
        ensures
            final(self)@.len() == cleaned(old(self)@).len() + 1,
            final(self)@.drop_last() == cleaned(old(self)@),
            final(self)@.last().1 == Level::Debug,
            final(self)@.last().2 == msg@,
    {
        self.add_log(Level::Debug, msg)
    }

    /// Adds a trace line that is logged now.
    pub fn trace(&mut self, msg: String)
        ensures
            final(self)@.len() == cleaned(old(self)@).len() + 1,
            final(self)@.drop_last() == cleaned(old(self)@),
            final(self)@.last().1 == Level::Trace,
            final(self)@.last().2 == msg@,
    {
        self.add_log(Level::Trace, msg)
    }
}

/// The history never grows past one line more than the most.
pub proof fn lemma_history_is_bounded(lines: Seq<LineView>, line: LineView)
    requires
        lines.len() <= MAX_LOG_HISTORY_CACHE + 1,
    ensures
        cleaned(lines).push(line).len() <= MAX_LOG_HISTORY_CACHE + 1,
{
}

} // verus!
