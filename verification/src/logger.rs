//! Run metrics and buffered log messages.
//!
//! The run's counters and messages are held in a plain context value that
//! the caller owns and reads at the end of a run; printing and timestamps
//! are the caller's business.

use vstd::prelude::*;

verus! {

/// The severity of one buffered log message.
#[derive(Clone, Copy, PartialEq, Eq, Structural, Debug)]
pub enum LogLevel {
    Info,
    Warn,
    Error,
}

/// The run's metrics and message buffer: how many requests were issued,
/// how many errors were reported, and every message in order.
pub struct Logger {
    pub request_count: u64,
    pub error_count: u64,
    pub entries: Vec<(LogLevel, String)>,
}

impl Logger {
    /// A fresh logger: zero counts, no messages.
    pub fn new() -> (r: Self)
        ensures
            r.request_count == 0,
            r.error_count == 0,
            r.entries@.len() == 0,
    {
        Logger { request_count: 0, error_count: 0, entries: Vec::new() }
    }

    /// Buffers one message at the given level; counts are untouched.
    fn log(&mut self, level: LogLevel, message: &str)
        ensures
            final(self).entries@.len() == old(self).entries@.len() + 1,
            final(self).entries@.drop_last() == old(self).entries@,
            final(self).entries@.last().0 == level,
            final(self).entries@.last().1@ == message@,
            final(self).request_count == old(self).request_count,
            final(self).error_count == old(self).error_count,
    {
        self.entries.push((level, String::from_str(message)));
        proof {
            assert(final(self).entries@.drop_last() =~= old(self).entries@);
        }
    }

    /// Buffers an informational message.
    pub fn info(&mut self, message: &str)
        ensures
            final(self).entries@.len() == old(self).entries@.len() + 1,
            final(self).entries@.drop_last() == old(self).entries@,
            final(self).entries@.last().0 == LogLevel::Info,
            final(self).entries@.last().1@ == message@,
            final(self).request_count == old(self).request_count,
            final(self).error_count == old(self).error_count,
    {
        self.log(LogLevel::Info, message);
    }

    /// Buffers a warning.
    pub fn warn(&mut self, message: &str)
        ensures
            final(self).entries@.len() == old(self).entries@.len() + 1,
            final(self).entries@.drop_last() == old(self).entries@,
            final(self).entries@.last().0 == LogLevel::Warn,
            final(self).entries@.last().1@ == message@,
            final(self).request_count == old(self).request_count,
            final(self).error_count == old(self).error_count,
    {
        self.log(LogLevel::Warn, message);
    }

    /// Buffers an error message and counts it.
    pub fn error(&mut self, message: &str)
        ensures
            final(self).entries@.len() == old(self).entries@.len() + 1,
            final(self).entries@.drop_last() == old(self).entries@,
            final(self).entries@.last().0 == LogLevel::Error,
            final(self).entries@.last().1@ == message@,
            final(self).request_count == old(self).request_count,
            final(self).error_count == (if old(self).error_count < u64::MAX {
                old(self).error_count + 1
            } else {
                old(self).error_count as int
            }),
    {
        if self.error_count < u64::MAX {
            self.error_count = self.error_count + 1;
        }
        self.log(LogLevel::Error, message);
    }

    /// Counts one more issued request; messages are untouched.
    pub fn increment_request(&mut self)
        ensures
            final(self).request_count == (if old(self).request_count < u64::MAX {
                old(self).request_count + 1
            } else {
                old(self).request_count as int
            }),
            final(self).error_count == old(self).error_count,
            final(self).entries@ == old(self).entries@,
    {
        if self.request_count < u64::MAX {
            self.request_count = self.request_count + 1;
        }
    }

    /// The request and error counts so far.
    pub fn get_stats(&self) -> (r: (u64, u64))
        ensures
            r.0 == self.request_count,
            r.1 == self.error_count,
    {
        (self.request_count, self.error_count)
    }
}

} // verus!
