//! Log forwarding to the consumer.
//!
//! Log entries are queued, in order, on a channel that the consumer installs
//! once; the host drains the queue into its own transport. While no channel
//! is installed, entries are discarded rather than queued without bound.

use vstd::prelude::*;

verus! {

/// One log entry: severity, text, the moment it was written (milliseconds)
/// and the subsystem that wrote it.
#[derive(Debug)]
pub struct LogEntry {
    pub level: String,
    pub message: String,
    pub timestamp: i64,
    pub tag: String,
}

/// The log channel: whether the consumer has installed its sink, the
/// entries queued for it in writing order, and the clock value (fed by the
/// host) that stamps each entry.
#[derive(Debug)]
pub struct Logger {
    pub sink_installed: bool,
    pub pending: Vec<LogEntry>,
    pub now_ms: i64,
}

impl Logger {
    /// A logger with no sink installed, an empty queue and the clock at the
    /// given moment.
    pub fn new(now_ms: i64) -> (r: Logger)
        ensures
            !r.sink_installed,
            r.pending@ =~= Seq::<LogEntry>::empty(),
            r.now_ms == now_ms,
    {
        Logger { sink_installed: false, pending: Vec::new(), now_ms }
    }

    /// Advance the clock that stamps log entries.
    pub fn set_now(&mut self, now_ms: i64)
        ensures
            *final(self) == (Logger { now_ms, ..*old(self) }),
    {
        self.now_ms = now_ms;
    }

    /// Hand the queued entries over, in order, leaving the queue empty.
    pub fn take_pending(&mut self) -> (r: Vec<LogEntry>)
        ensures
            r@ == old(self).pending@,
            final(self).pending@ == Seq::<LogEntry>::empty(),
            final(self).sink_installed == old(self).sink_installed,
            final(self).now_ms == old(self).now_ms,
    {
        let mut drained: Vec<LogEntry> = Vec::new();
        core::mem::swap(&mut drained, &mut self.pending);
        drained
    }
}

/// Whether an entry carries exactly the given level, message and tag, and
/// the logger's current clock.
pub open spec fn entry_of(
    logger: Logger,
    level: Seq<char>,
    message: Seq<char>,
    tag: Seq<char>,
    e: LogEntry,
) -> bool {
    &&& e.level@ == level
    &&& e.message@ == message
    &&& e.tag@ == tag
    &&& e.timestamp == logger.now_ms
}

/// What `_log` leaves behind: with a sink installed, exactly one entry with
/// the given fields is appended; without one, the entry is discarded.
pub open spec fn logged(
    before: Logger,
    after: Logger,
    level: Seq<char>,
    message: Seq<char>,
    tag: Seq<char>,
) -> bool {
    &&& after.sink_installed == before.sink_installed
    &&& after.now_ms == before.now_ms
    &&& if before.sink_installed {
        after.pending@.len() == before.pending@.len() + 1 && after.pending@.drop_last()
            == before.pending@ && entry_of(before, level, message, tag, after.pending@.last())
    } else {
        after.pending@ == before.pending@
    }
}

/// Install the consumer's log sink. Installing it again is accepted and
/// changes nothing.
pub fn init_logger(logger: &mut Logger)
    ensures
        final(logger).sink_installed,
        final(logger).pending@ == old(logger).pending@,
        final(logger).now_ms == old(logger).now_ms,
{
    create_log_stream(logger);
}

/// Install the consumer's log sink.
pub fn create_log_stream(logger: &mut Logger)
    ensures
        final(logger).sink_installed,
        final(logger).pending@ == old(logger).pending@,
        final(logger).now_ms == old(logger).now_ms,
{
    logger.sink_installed = true;
}

/// Queue one entry, stamped with the logger's clock. Without an installed
/// sink the entry is discarded.
pub fn _log(logger: &mut Logger, level: String, message: String, tag: String)
    ensures
        logged(*old(logger), *final(logger), level@, message@, tag@),
{
    if logger.sink_installed {
        let entry = LogEntry { level, message, timestamp: logger.now_ms, tag };
        let ghost before = logger.pending@;
        logger.pending.push(entry);
        proof {
            assert(logger.pending@.drop_last() =~= before);
        }
    }
}

/// Queue a debug entry from this library.
pub fn log_debug(logger: &mut Logger, message: String)
    ensures
        logged(*old(logger), *final(logger), "debug"@, message@, "rust"@),
{
    _log(logger, String::from_str("debug"), message, String::from_str("rust"));
}

/// Queue an informational entry from this library.
pub fn log_info(logger: &mut Logger, message: String)
    ensures
        logged(*old(logger), *final(logger), "info"@, message@, "rust"@),
{
    _log(logger, String::from_str("info"), message, String::from_str("rust"));
}

/// Queue a warning entry from this library.
pub fn log_warn(logger: &mut Logger, message: String)
    ensures
        logged(*old(logger), *final(logger), "warn"@, message@, "rust"@),
{
    _log(logger, String::from_str("warn"), message, String::from_str("rust"));
}

/// Queue an error entry from this library.
pub fn log_error(logger: &mut Logger, message: String)
    ensures
        logged(*old(logger), *final(logger), "error"@, message@, "rust"@),
{
    _log(logger, String::from_str("error"), message, String::from_str("rust"));
}

/// Queue an entry whose level arrives as text: one of the four known levels,
/// or informational for anything else.
pub fn log_message(logger: &mut Logger, level: String, message: String)
    ensures
        logged(
            *old(logger),
            *final(logger),
            (if level@ == "debug"@ || level@ == "info"@ || level@ == "warn"@ || level@ == "error"@ {
                level@
            } else {
                "info"@
            }),
            message@,
            "rust"@,
        ),
{
    let is_known = level == String::from_str("debug") || level == String::from_str("info")
        || level == String::from_str("warn") || level == String::from_str("error");
    if is_known {
        _log(logger, level, message, String::from_str("rust"));
    } else {
        log_info(logger, message);
    }
}

} // verus!
