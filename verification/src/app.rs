//! Shared observation record: status flags, resource usage and the rolling
//! log that the background cycle writes and the display layer reads.

use vstd::prelude::*;
use vstd::string::*;
use std::collections::VecDeque;
use crate::config::LOG_CAPACITY;

verus! {

broadcast use vstd::std_specs::vecdeque::group_vec_dequeue_axioms;

/// Severity of a log entry.
#[derive(Clone, Copy, Debug, PartialEq, Eq, Structural)]
pub enum LogLevel {
    Info,
    Success,
    Warning,
    Error,
    Game,
}

/// One entry of the rolling log.
#[derive(Clone, Debug)]
pub struct LogMessage {
    pub message: String,
    pub level: LogLevel,
}

/// The shared observation record.
pub struct AppState {
    pub game_running: bool,
    pub discord_connected: bool,
    pub debug_mode: bool,
    pub logs: VecDeque<LogMessage>,
    pub start_timestamp: Option<i64>,
    pub matched_window: Option<String>,
    pub cpu_usage: u32,
    pub ram_usage: u64,
}

/// What one push does to the log ring: at capacity the oldest entry is
/// evicted first, then the new entry goes to the back.
pub open spec fn ring_push(logs: Seq<LogMessage>, m: LogMessage) -> Seq<LogMessage> {
    if logs.len() >= LOG_CAPACITY {
        logs.drop_first().push(m)
    } else {
        logs.push(m)
    }
}

/// What pushing a sequence of entries, oldest first, does to the log ring.
pub open spec fn ring_push_all(logs: Seq<LogMessage>, ms: Seq<LogMessage>) -> Seq<LogMessage>
    decreases ms.len(),
{
    if ms.len() == 0 {
        logs
    } else {
        ring_push_all(ring_push(logs, ms[0]), ms.drop_first())
    }
}

impl AppState {
    /// The record is well formed: the log ring is within capacity and the
    /// running flag agrees with the presence of a start timestamp.
    pub open spec fn wf(self) -> bool {
        &&& self.logs@.len() <= LOG_CAPACITY
        &&& (self.game_running <==> self.start_timestamp is Some)
    }

    /// All fields of `self` and `other` but the log ring agree.
    pub open spec fn same_but_logs(self, other: AppState) -> bool {
        &&& self.game_running == other.game_running
        &&& self.discord_connected == other.discord_connected
        &&& self.debug_mode == other.debug_mode
        &&& self.start_timestamp == other.start_timestamp
        &&& self.matched_window == other.matched_window
        &&& self.cpu_usage == other.cpu_usage
        &&& self.ram_usage == other.ram_usage
    }

    /// A fresh record: nothing detected, nothing connected, empty log.
    pub fn new() -> (r: AppState)
        ensures
            r.wf(),
            !r.game_running,
            !r.discord_connected,
            !r.debug_mode,
            r.logs@ == Seq::<LogMessage>::empty(),
            r.start_timestamp is None,
            r.matched_window is None,
            r.cpu_usage == 0,
            r.ram_usage == 0,
    {
        AppState {
            game_running: false,
            discord_connected: false,
            debug_mode: false,
            logs: VecDeque::with_capacity(LOG_CAPACITY),
            start_timestamp: None,
            matched_window: None,
            cpu_usage: 0,
            ram_usage: 0,
        }
    }

    /// Appends an entry to the log ring, evicting the oldest entry first
    /// when the ring is at capacity.
    pub fn add_log(&mut self, level: LogLevel, msg: String)
        ensures
            final(self).logs@ == ring_push(old(self).logs@, (LogMessage { message: msg, level })),
            final(self).same_but_logs(*old(self)),
            old(self).logs@.len() <= LOG_CAPACITY ==> final(self).logs@.len() <= LOG_CAPACITY,
    {
        if self.logs.len() >= LOG_CAPACITY {
            self.logs.pop_front();
        }
        self.logs.push_back(LogMessage { message: msg, level });
    }

    /// Flips debug mode and records the flip in the log.
    pub fn toggle_debug(&mut self)
        ensures
            final(self).debug_mode == !old(self).debug_mode,
            final(self).logs@ == ring_push(
                old(self).logs@,
                (LogMessage {
                    message: final(self).logs@.last().message,
                    level: LogLevel::Info,
                }),
            ),
            final(self).debug_mode ==> final(self).logs@.last().message@ == "Debug mode ON"@,
            !final(self).debug_mode ==> final(self).logs@.last().message@ == "Debug mode OFF"@,
            final(self).game_running == old(self).game_running,
            final(self).discord_connected == old(self).discord_connected,
            final(self).start_timestamp == old(self).start_timestamp,
            final(self).matched_window == old(self).matched_window,
            final(self).cpu_usage == old(self).cpu_usage,
            final(self).ram_usage == old(self).ram_usage,
    {
        self.debug_mode = !self.debug_mode;
        let msg = if self.debug_mode {
            String::from_str("Debug mode ON")
        } else {
            String::from_str("Debug mode OFF")
        };
        self.add_log(LogLevel::Info, msg);
    }

    /// Empties the log ring, leaving a single entry that records the wipe.
    pub fn clear_logs(&mut self)
        ensures
            final(self).logs@.len() == 1,
            final(self).logs@[0].message@ == "Logs cleared"@,
            final(self).logs@[0].level == LogLevel::Info,
            final(self).same_but_logs(*old(self)),
    {
        self.logs.clear();
        self.add_log(LogLevel::Info, String::from_str("Logs cleared"));
    }
}

/// The log ring never exceeds its capacity, and eviction is first-in
/// first-out: below capacity a push only appends, at capacity it drops
/// exactly the oldest entry before appending.
pub proof fn lemma_log_ring_capacity(logs: Seq<LogMessage>, m: LogMessage)
    requires
        logs.len() <= LOG_CAPACITY,
    ensures
        ring_push(logs, m).len() <= LOG_CAPACITY,
        logs.len() < LOG_CAPACITY ==> ring_push(logs, m) == logs.push(m),
        logs.len() == LOG_CAPACITY ==> ring_push(logs, m) == logs.drop_first().push(m),
        logs.len() == LOG_CAPACITY ==> forall|i: int|
            1 <= i < logs.len() ==> ring_push(logs, m)[i - 1] == logs[i],
{
}

} // verus!
