//! Bookkeeping of the asynchronous persistence layer.
//!
//! The cold store is written by one dedicated thread fed through a bounded
//! channel; producers never block, they drop the event and count it instead.
//! This module holds the verified part of that machinery: the health
//! counters the host polls, the writer thread's batching decisions, and the
//! result codes of the initialization and shutdown entry points.  The
//! channel, the thread and the database calls themselves live with the
//! host.

use vstd::prelude::*;

verus! {

/// A full writer batch: the writer coalesces at most this many events into
/// one transaction.
pub const WRITER_BATCH_MAX: usize = 1024;

/// Timestamp of the sentinel event that asks the writer thread to flush its
/// buffer and exit.
pub const SHUTDOWN_TS: i64 = -1;

/// Increment with the wrap-around of the hardware counter.
pub open spec fn wrap_inc(x: u64) -> u64 {
    if x == u64::MAX {
        0u64
    } else {
        (x + 1) as u64
    }
}

/// Addition with the wrap-around of the hardware counter.
pub open spec fn wrap_add(x: u64, y: u64) -> u64 {
    if x + y > u64::MAX {
        (x + y - 0x1_0000_0000_0000_0000) as u64
    } else {
        (x + y) as u64
    }
}

/// Health counters of the logging pipeline: how many events were submitted
/// in total and how many of them were dropped instead of persisted.
#[derive(Clone, Copy, PartialEq, Eq, Structural, Debug)]
pub struct LogStats {
    pub total: u64,
    pub dropped: u64,
}

/// The counters after one submitted event: the total always advances; the
/// dropped count advances only when the channel refused the event.
pub open spec fn stats_after_event(s: LogStats, accepted: bool) -> LogStats {
    LogStats {
        total: wrap_inc(s.total),
        dropped: if accepted {
            s.dropped
        } else {
            wrap_inc(s.dropped)
        },
    }
}

impl LogStats {
    /// Counters of a freshly initialized pipeline.
    pub fn new() -> (s: LogStats)
        ensures
            s.total == 0,
            s.dropped == 0,
    {
        LogStats { total: 0, dropped: 0 }
    }

    /// Account for one submitted log event; `accepted` says whether the
    /// bounded channel took it or it was dropped.
    pub fn record_event(&mut self, accepted: bool)
        ensures
            *final(self) == stats_after_event(*old(self), accepted),
    {
        self.total = self.total.wrapping_add(1);
        if !accepted {
            self.dropped = self.dropped.wrapping_add(1);
        }
    }

    /// Account for a whole buffer the writer failed to flush: its events
    /// were already counted as submitted and now count as dropped.
    pub fn record_flush_failure(&mut self, count: u64)
        ensures
            final(self).total == old(self).total,
            final(self).dropped == wrap_add(old(self).dropped, count),
    {
        self.dropped = self.dropped.wrapping_add(count);
    }
}

/// Total number of log events ever submitted.
pub fn get_total_logs(stats: &LogStats) -> (n: u64)
    ensures
        n == stats.total,
{
    stats.total
}

/// Number of submitted log events that were dropped instead of persisted.
pub fn get_dropped_logs(stats: &LogStats) -> (n: u64)
    ensures
        n == stats.dropped,
{
    stats.dropped
}

/// The counters after a whole sequence of submitted events.
pub open spec fn stats_after_events(s: LogStats, events: Seq<bool>) -> LogStats
    decreases events.len(),
{
    if events.len() == 0 {
        s
    } else {
        stats_after_event(stats_after_events(s, events.drop_last()), events.last())
    }
}

/// How many events of a submission sequence were refused by the channel.
pub open spec fn rejected_count(events: Seq<bool>) -> nat
    decreases events.len(),
{
    if events.len() == 0 {
        0nat
    } else {
        rejected_count(events.drop_last()) + if events.last() {
            0nat
        } else {
            1nat
        }
    }
}

/// Law: over any submission sequence short of the counter's wrap-around,
/// starting from fresh counters, the total equals the number of submitted
/// events, the dropped count equals the number of refused events, and so
/// never exceeds the total.  Whenever at least one event was refused, the
/// dropped count is positive.
pub proof fn lemma_log_accounting(events: Seq<bool>)
    requires
        events.len() <= u64::MAX,
    ensures
        stats_after_events(LogStats { total: 0, dropped: 0 }, events).total == events.len(),
        stats_after_events(LogStats { total: 0, dropped: 0 }, events).dropped == rejected_count(events),
        rejected_count(events) <= events.len(),
    decreases events.len(),
{
    if events.len() > 0 {
        lemma_log_accounting(events.drop_last());
    }
}

/// What the writer thread does with one event received from the channel.
#[derive(Clone, Copy, PartialEq, Eq, Structural, Debug)]
pub enum WriterAction {
    /// Flush whatever is buffered and exit: the shutdown sentinel arrived.
    FlushAndStop,
    /// Add the event to the batch buffer and keep receiving.
    Collect,
    /// Add the event to the batch buffer and flush the full batch.
    CollectAndFlush,
}

/// The batching decision for one received event, given how many events the
/// batch buffer already holds.
pub open spec fn writer_action_of(buffered: usize, event_ts: i64) -> WriterAction {
    if event_ts == SHUTDOWN_TS {
        WriterAction::FlushAndStop
    } else if buffered + 1 >= WRITER_BATCH_MAX {
        WriterAction::CollectAndFlush
    } else {
        WriterAction::Collect
    }
}

/// Decide what the writer thread does with the event it just received.
pub fn writer_step(buffered: usize, event_ts: i64) -> (a: WriterAction)
    ensures
        a == writer_action_of(buffered, event_ts),
{
    if event_ts == SHUTDOWN_TS {
        WriterAction::FlushAndStop
    } else if buffered >= WRITER_BATCH_MAX - 1 {
        WriterAction::CollectAndFlush
    } else {
        WriterAction::Collect
    }
}

/// Why database initialization failed.
#[derive(Clone, Copy, PartialEq, Eq, Structural, Debug)]
pub enum InitError {
    /// The host passed no path.
    NullPath,
    /// The path bytes were not valid UTF-8.
    PathNotUtf8,
    /// The database file could not be opened.
    OpenFailed,
    /// The schema statements failed.
    SchemaFailed,
    /// The reader connection pool could not be filled.
    PoolFailed,
    /// The layer was already initialized.
    AlreadyInitialized,
}

/// The boundary code for an initialization outcome.
pub open spec fn init_code_of(outcome: Result<(), InitError>) -> int {
    match outcome {
        Ok(_) => 0,
        Err(InitError::NullPath) => -1,
        Err(InitError::PathNotUtf8) => -2,
        Err(InitError::OpenFailed) => -4,
        Err(InitError::SchemaFailed) => -5,
        Err(InitError::PoolFailed) => -6,
        Err(InitError::AlreadyInitialized) => -7,
    }
}

/// Map an initialization outcome to the code returned over the boundary:
/// zero on success, a distinct negative code per failure.
pub fn init_result_code(outcome: &Result<(), InitError>) -> (c: i32)
    ensures
        c == init_code_of(*outcome),
        c == 0 <==> outcome is Ok,
{
    match outcome {
        Ok(_) => 0,
        Err(InitError::NullPath) => -1,
        Err(InitError::PathNotUtf8) => -2,
        Err(InitError::OpenFailed) => -4,
        Err(InitError::SchemaFailed) => -5,
        Err(InitError::PoolFailed) => -6,
        Err(InitError::AlreadyInitialized) => -7,
    }
}

/// The shutdown entry point's code: zero when the writer thread was running
/// and received the sentinel, negative one when there was no writer.
pub fn shutdown_result_code(writer_running: bool) -> (c: i32)
    ensures
        c == 0 <==> writer_running,
        writer_running ==> c == 0,
        !writer_running ==> c == -1,
{
    if writer_running {
        0
    } else {
        -1
    }
}

} // verus!
