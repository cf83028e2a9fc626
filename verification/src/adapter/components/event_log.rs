//! The event log shown beside each screen: informational and error messages,
//! oldest first.

use vstd::prelude::*;

verus! {

/// How serious a logged message is.
#[derive(Debug, Clone, Copy, PartialEq, Eq, Structural)]
pub enum LogLevel {
    Info,
    Error,
}

/// A logged message.
#[derive(Debug, Clone)]
pub struct LogEntry {
    pub level: LogLevel,
    pub message: String,
}

/// The messages logged so far.
pub struct EventLog {
    entries: Vec<LogEntry>,
}

impl View for EventLog {
    type V = Seq<(LogLevel, Seq<char>)>;

    closed spec fn view(&self) -> Seq<(LogLevel, Seq<char>)> {
        self.entries@.map_values(|e: LogEntry| (e.level, e.message@))
    }
}

impl EventLog {
    /// An empty log.
    pub fn new() -> (r: Self)
        ensures
            r@ == Seq::<(LogLevel, Seq<char>)>::empty(),
    {
        let r = EventLog { entries: Vec::new() };
        proof {
            assert(r@ =~= Seq::<(LogLevel, Seq<char>)>::empty());
        }
        r
    }

    fn add(&mut self, level: LogLevel, message: String)
        ensures
            final(self)@ == old(self)@.push((level, message@)),
    {
        let ghost before = self.entries@;
        self.entries.push(LogEntry { level, message });
        proof {
            assert(self.entries@.map_values(|e: LogEntry| (e.level, e.message@)) =~= before.map_values(
                |e: LogEntry| (e.level, e.message@),
            ).push((level, message@)));
        }
    }

    /// Logs an informational message.
    pub fn add_info(&mut self, message: String)
        ensures
            final(self)@ == old(self)@.push((LogLevel::Info, message@)),
    {
        self.add(LogLevel::Info, message);
    }

    /// Logs an error message.
    pub fn add_error(&mut self, message: String)
        ensures
            final(self)@ == old(self)@.push((LogLevel::Error, message@)),
    {
        self.add(LogLevel::Error, message);
    }

    /// The number of messages.
    pub fn len(&self) -> (r: usize)
        ensures
            r == self@.len(),
    {
        self.entries.len()
    }

    /// The message at `i`, oldest first.
    pub fn entry(&self, i: usize) -> (r: &LogEntry)
        requires
            i < self@.len(),
        ensures
            (r.level, r.message@) == self@[i as int],
    {
        &self.entries[i]
    }
}

} // verus!
