//! Detection state machine: consumes scanner snapshots on a fixed cadence,
//! applies the start/stop cooldowns, transitions the running state, and
//! drives the presence client — publish on start, clear on stop, one
//! reconnect attempt per cycle while disconnected.

use vstd::prelude::*;
use vstd::string::*;
use crate::app::{ring_push, ring_push_all, AppState, LogLevel, LogMessage};
use crate::config::{START_COOLDOWN_MS, STOP_COOLDOWN_MS};
use crate::presence::{DiscordClient, PublishReport};
use crate::scan::{ProcessScanner, Snapshot};

verus! {

/// Detection state, owned exclusively by the state machine.
pub struct DetectionState {
    pub game_running: bool,
    pub start_timestamp: Option<i64>,
    pub matched_window: Option<String>,
    pub last_start_time_ms: i64,
    pub last_stop_time_ms: i64,
}

impl DetectionState {
    /// The running flag agrees with the presence of a start timestamp, and
    /// the transition clocks never lie before the epoch.
    pub open spec fn wf(self) -> bool {
        &&& (self.game_running <==> self.start_timestamp is Some)
        &&& self.last_start_time_ms >= 0
        &&& self.last_stop_time_ms >= 0
    }

    /// The initial state: not running, with both transition clocks at the
    /// epoch so that a first start is never held back by the cooldown.
    pub fn new() -> (r: DetectionState)
        ensures
            r.wf(),
            !r.game_running,
            r.start_timestamp is None,
            r.matched_window is None,
            r.last_start_time_ms == 0,
            r.last_stop_time_ms == 0,
    {
        DetectionState {
            game_running: false,
            start_timestamp: None,
            matched_window: None,
            last_start_time_ms: 0,
            last_stop_time_ms: 0,
        }
    }
}

/// What the state machine decided for one cycle.
#[derive(Clone, Copy, Debug, PartialEq, Eq, Structural)]
pub enum Decision {
    /// Transition to running and publish the presence.
    Start,
    /// Transition to stopped and clear the presence; the flag tells whether
    /// the host process was still present (window lost) or gone (host
    /// closed).
    Stop { host_present: bool },
    /// No transition; refresh the displayed connection state.
    Observe,
    /// No transition; a start or stop condition holds but its cooldown has
    /// not yet elapsed.
    Wait,
}

/// The decision table of the state machine. Start-detection is evaluated
/// first and only fires when not already running, so start and stop are
/// mutually exclusive; either transition is held back by its cooldown.
pub open spec fn decide(st: DetectionState, snap: Snapshot, now_ms: i64) -> Decision {
    if snap.game_window_present && !st.game_running {
        if now_ms - st.last_start_time_ms > START_COOLDOWN_MS {
            Decision::Start
        } else {
            Decision::Wait
        }
    } else if (!snap.host_process_present && st.game_running) || (!snap.game_window_present
        && st.game_running && snap.host_process_present) {
        if now_ms - st.last_stop_time_ms > STOP_COOLDOWN_MS {
            Decision::Stop { host_present: snap.host_process_present }
        } else {
            Decision::Wait
        }
    } else {
        Decision::Observe
    }
}

/// What a decision does to the detection state: a start records the running
/// session and the start clock, a stop clears it and records the stop
/// clock, anything else leaves the state untouched.
pub open spec fn apply_decision(
    st: DetectionState,
    snap: Snapshot,
    d: Decision,
    now_ms: i64,
    now_s: i64,
) -> DetectionState {
    match d {
        Decision::Start => DetectionState {
            game_running: true,
            start_timestamp: Some(now_s),
            matched_window: snap.matched_title,
            last_start_time_ms: now_ms,
            last_stop_time_ms: st.last_stop_time_ms,
        },
        Decision::Stop { .. } => DetectionState {
            game_running: false,
            start_timestamp: None,
            matched_window: None,
            last_start_time_ms: st.last_start_time_ms,
            last_stop_time_ms: now_ms,
        },
        _ => st,
    }
}

/// Executable form of the decision table.
pub fn decide_exec(st: &DetectionState, snap: &Snapshot, now_ms: i64) -> (d: Decision)
    requires
        st.wf(),
        now_ms >= 0,
    ensures
        d == decide(*st, *snap, now_ms),
{
    if snap.game_window_present && !st.game_running {
        if now_ms - st.last_start_time_ms > START_COOLDOWN_MS {
            Decision::Start
        } else {
            Decision::Wait
        }
    } else if (!snap.host_process_present && st.game_running) || (!snap.game_window_present
        && st.game_running && snap.host_process_present) {
        if now_ms - st.last_stop_time_ms > STOP_COOLDOWN_MS {
            Decision::Stop { host_present: snap.host_process_present }
        } else {
            Decision::Wait
        }
    } else {
        Decision::Observe
    }
}

/// What one cycle did, for the display layer: when it ran, the decision,
/// the log entries it produced, the presence calls it made, and the
/// resource sample.
pub struct CycleReport {
    pub now_ms: i64,
    pub now_s: i64,
    pub host_seen: bool,
    pub decision: Decision,
    pub logs: Vec<LogMessage>,
    pub publish: Option<PublishReport>,
    pub clear_error: Option<String>,
    pub connected_display: Option<bool>,
    pub reconnect_attempted: bool,
    pub reconnected: bool,
    pub cpu_usage: u32,
    pub ram_usage: u64,
}

/// The background cycle: scanner, presence client and detection state.
pub struct Engine {
    pub scanner: ProcessScanner,
    pub discord: DiscordClient,
    pub det: DetectionState,
}

impl Engine {
    /// A fresh engine: initial detection state, disconnected presence
    /// client, fresh scanner.
    pub fn new() -> (r: Engine)
        ensures
            r.det.wf(),
            !r.det.game_running,
            r.det.start_timestamp is None,
            r.det.matched_window is None,
            r.det.last_start_time_ms == 0,
            r.det.last_stop_time_ms == 0,
            !r.discord.is_connected,
    {
        Engine {
            scanner: ProcessScanner::new(),
            discord: DiscordClient::new(),
            det: DetectionState::new(),
        }
    }

    /// Processes one observation: decides, transitions the detection state,
    /// makes the presence calls the decision asks for, and reports what
    /// happened. The presence service never stops the cycle: every failure
    /// comes back as a log entry or report field.
    pub fn process_cycle(
        &mut self,
        snap: Snapshot,
        now_ms: i64,
        now_s: i64,
        debug: bool,
        cpu: u32,
        ram: u64,
    ) -> (r: CycleReport)
        requires
            old(self).det.wf(),
            snap.wf(),
            now_ms >= 0,
        ensures
            r.now_ms == now_ms,
            r.now_s == now_s,
            r.decision == decide(old(self).det, snap, now_ms),
            final(self).det == apply_decision(old(self).det, snap, r.decision, now_ms, now_s),
            final(self).det.wf(),
            r.host_seen == snap.host_process_present,
            r.cpu_usage == cpu,
            r.ram_usage == ram,
            final(self).discord.is_connected == (old(self).discord.is_connected
                || r.reconnected),
            r.reconnect_attempted == !old(self).discord.is_connected,
            r.reconnected ==> r.reconnect_attempted,
            r.publish matches Some(p) ==> p.publish_attempts <= 2 && p.connect_attempts <= 1
                && (p.first_error is Some <==> p.publish_attempts == 2),
            r.decision == Decision::Start ==> {
                &&& r.publish is Some
                &&& (snap.matched_title matches Some(t) && r.logs@[0].message@
                    == "MotorStorm Detected: "@ + t@)
                &&& r.logs@[0].level == LogLevel::Game
                &&& (r.publish matches Some(p) ==> {
                    &&& (p.first_error is None ==> r.logs@.len() == 1)
                    &&& (p.first_error matches Some(e) ==> r.logs@.len() == 2
                        && r.logs@[1].level == LogLevel::Warning
                        && r.logs@[1].message@ == "Initial presence update failed: "@ + e@)
                })
            },
            r.decision matches Decision::Stop { host_present } ==> {
                &&& host_present == snap.host_process_present
                &&& r.publish is None
                &&& r.logs@[0].level == LogLevel::Game
                &&& (host_present ==> r.logs@[0].message@ == "Game window no longer active"@)
                &&& (!host_present ==> r.logs@[0].message@ == "RPCS3 process closed"@)
                &&& (r.clear_error is None || !debug ==> r.logs@.len() == 1)
                &&& (r.clear_error matches Some(e) ==> debug ==> r.logs@.len() == 2
                    && r.logs@[1].level == LogLevel::Error
                    && r.logs@[1].message@ == "Clear presence failed: "@ + e@)
            },
            r.decision == Decision::Observe ==> r.logs@.len() == 0 && r.connected_display
                == Some(old(self).discord.is_connected) && r.publish is None,
            r.decision == Decision::Wait ==> r.logs@.len() == 0 && r.publish is None
                && r.clear_error is None,
            r.decision != Decision::Observe ==> r.connected_display is None,
    {
        let host_seen = snap.host_process_present;
        let mut logs: Vec<LogMessage> = Vec::new();
        let decision = decide_exec(&self.det, &snap, now_ms);
        let mut publish: Option<PublishReport> = None;
        let mut clear_error: Option<String> = None;
        let mut connected_display: Option<bool> = None;
        match decision {
            Decision::Start => {
                let prefix = String::from_str("MotorStorm Detected: ");
                let msg = match &snap.matched_title {
                    Some(t) => prefix.concat(t.as_str()),
                    None => {
                        // A start decision needs a present game window, and a
                        // well-formed snapshot then carries a matched title.
                        proof {
                            assert(false);
                        }
                        prefix
                    },
                };
                logs.push(LogMessage { message: msg, level: LogLevel::Game });
                self.det.game_running = true;
                self.det.start_timestamp = Some(now_s);
                self.det.matched_window = snap.matched_title;
                self.det.last_start_time_ms = now_ms;
                let rep = self.discord.publish_with_retry(now_s);
                match &rep.first_error {
                    Some(e) => {
                        let w = String::from_str("Initial presence update failed: ").concat(
                            e.as_str(),
                        );
                        logs.push(LogMessage { message: w, level: LogLevel::Warning });
                    },
                    None => {},
                }
                publish = Some(rep);
            },
            Decision::Stop { host_present } => {
                let msg = if host_present {
                    String::from_str("Game window no longer active")
                } else {
                    String::from_str("RPCS3 process closed")
                };
                logs.push(LogMessage { message: msg, level: LogLevel::Game });
                self.det.game_running = false;
                self.det.start_timestamp = None;
                self.det.matched_window = None;
                self.det.last_stop_time_ms = now_ms;
                match self.discord.clear_presence() {
                    Ok(()) => {},
                    Err(e) => {
                        if debug {
                            let m = String::from_str("Clear presence failed: ").concat(
                                e.as_str(),
                            );
                            logs.push(LogMessage { message: m, level: LogLevel::Error });
                        }
                        clear_error = Some(e);
                    },
                }
            },
            Decision::Observe => {
                connected_display = Some(self.discord.is_connected());
            },
            Decision::Wait => {},
        }
        let mut reconnect_attempted = false;
        let mut reconnected = false;
        if !self.discord.is_connected() {
            reconnect_attempted = true;
            match self.discord.connect() {
                Ok(()) => {
                    reconnected = true;
                },
                Err(_) => {},
            }
        }
        CycleReport {
            now_ms,
            now_s,
            host_seen,
            decision,
            logs,
            publish,
            clear_error,
            connected_display,
            reconnect_attempted,
            reconnected,
            cpu_usage: cpu,
            ram_usage: ram,
        }
    }
}

/// Relies on `std::time::SystemTime::now` and
/// `SystemTime::duration_since`: the wall clock as whole milliseconds
/// since the Unix epoch. A clock standing before the epoch reads as the
/// epoch itself and an out-of-range duration saturates, so the call never
/// panics and never goes negative.
#[verifier::external_body]
fn now_unix_millis() -> (r: i64)
    ensures
        r >= 0,
{
    match std::time::SystemTime::now().duration_since(std::time::UNIX_EPOCH) {
        Ok(d) => i64::try_from(d.as_millis()).unwrap_or(i64::MAX),
        Err(_) => 0,
    }
}

/// Relies on `std::time::SystemTime::now` and
/// `SystemTime::duration_since`: the wall clock as whole seconds since the
/// Unix epoch, reading as the epoch itself before it and saturating out of
/// range — never panicking, never negative.
#[verifier::external_body]
fn now_unix_seconds() -> (r: i64)
    ensures
        r >= 0,
{
    match std::time::SystemTime::now().duration_since(std::time::UNIX_EPOCH) {
        Ok(d) => i64::try_from(d.as_secs()).unwrap_or(i64::MAX),
        Err(_) => 0,
    }
}

/// The wall clock for one cycle: milliseconds and seconds since the epoch,
/// in that order, each non-negative.
pub fn cycle_times() -> (r: (i64, i64))
    ensures
        r.0 >= 0,
        r.1 >= 0,
{
    (now_unix_millis(), now_unix_seconds())
}

/// `a` and `b` hold the same optional text.
pub open spec fn opt_str_eq(a: Option<String>, b: Option<String>) -> bool {
    match (a, b) {
        (Some(x), Some(y)) => x@ == y@,
        (None, None) => true,
        _ => false,
    }
}

/// Writes one cycle's outcome into the shared observation record: mirrors
/// the detection state, stores the resource sample, refreshes the displayed
/// connection state when the cycle observed it, and appends the cycle's log
/// entries — plus a success entry when the cycle reconnected — through the
/// log ring.
pub fn apply_report(state: &mut AppState, det: &DetectionState, rep: CycleReport)
    requires
        old(state).logs@.len() <= crate::config::LOG_CAPACITY,
        det.wf(),
    ensures
        final(state).wf(),
        final(state).game_running == det.game_running,
        final(state).start_timestamp == det.start_timestamp,
        opt_str_eq(final(state).matched_window, det.matched_window),
        final(state).cpu_usage == rep.cpu_usage,
        final(state).ram_usage == rep.ram_usage,
        final(state).debug_mode == old(state).debug_mode,
        final(state).discord_connected == (match rep.connected_display {
            Some(v) => v,
            None => old(state).discord_connected,
        }),
        final(state).logs@.len() <= crate::config::LOG_CAPACITY,
        !rep.reconnected ==> final(state).logs@ == ring_push_all(old(state).logs@, rep.logs@),
        rep.reconnected ==> final(state).logs@ == ring_push(
            ring_push_all(old(state).logs@, rep.logs@),
            final(state).logs@.last(),
        ) && final(state).logs@.last().message@ == "Reconnected to Discord"@
            && final(state).logs@.last().level == LogLevel::Success,
    {
    state.game_running = det.game_running;
    state.start_timestamp = det.start_timestamp;
    state.matched_window = match &det.matched_window {
        Some(t) => Some(t.clone()),
        None => None,
    };
    state.cpu_usage = rep.cpu_usage;
    state.ram_usage = rep.ram_usage;
    match rep.connected_display {
        Some(v) => {
            state.discord_connected = v;
        },
        None => {},
    }
    let ghost logs0 = state.logs@;
    let ghost entries0 = rep.logs@;
    let mut entries = rep.logs;
    while entries.len() > 0
        invariant
            state.logs@.len() <= crate::config::LOG_CAPACITY,
            ring_push_all(state.logs@, entries@) == ring_push_all(logs0, entries0),
            state.game_running == det.game_running,
            state.start_timestamp == det.start_timestamp,
            opt_str_eq(state.matched_window, det.matched_window),
            state.cpu_usage == rep.cpu_usage,
            state.ram_usage == rep.ram_usage,
            state.debug_mode == old(state).debug_mode,
            state.discord_connected == (match rep.connected_display {
                Some(v) => v,
                None => old(state).discord_connected,
            }),
        decreases entries@.len(),
    {
        let m = entries.remove(0);
        state.add_log(m.level, m.message);
    }
    if rep.reconnected {
        state.add_log(LogLevel::Success, String::from_str("Reconnected to Discord"));
    }
}

/// A start decision fires exactly when a game window is present, the game
/// is not already running, and the start cooldown has elapsed; flicker
/// within the cooldown never re-triggers a start.
pub proof fn lemma_start_conditions(st: DetectionState, snap: Snapshot, now_ms: i64)
    ensures
        decide(st, snap, now_ms) == Decision::Start <==> (snap.game_window_present
            && !st.game_running && now_ms - st.last_start_time_ms > START_COOLDOWN_MS),
{
}

/// From the initial state, the first sighting of the game window starts
/// the session at once: with the start clock still at the epoch, only a
/// cycle time within the start cooldown of the epoch itself could hold the
/// start back.
pub proof fn lemma_first_sighting_starts(st: DetectionState, snap: Snapshot, now_ms: i64)
    requires
        !st.game_running,
        st.last_start_time_ms == 0,
        snap.game_window_present,
        now_ms > START_COOLDOWN_MS,
    ensures
        decide(st, snap, now_ms) == Decision::Start,
{
}

/// A stop decision fires exactly when the game is running, the host process
/// is gone or its game window is gone, and the stop cooldown has elapsed;
/// flicker within the cooldown never re-triggers a stop. The recorded flag
/// tells the two reasons apart.
pub proof fn lemma_stop_conditions(st: DetectionState, snap: Snapshot, now_ms: i64)
    ensures
        (decide(st, snap, now_ms) matches Decision::Stop { host_present }) <==> (st.game_running
            && (!snap.host_process_present || !snap.game_window_present)
            && now_ms - st.last_stop_time_ms > STOP_COOLDOWN_MS),
        decide(st, snap, now_ms) matches Decision::Stop { host_present } ==> host_present
            == snap.host_process_present,
{
}

/// After every transition the running flag agrees with the presence of a
/// start timestamp.
pub proof fn lemma_transition_preserves_wf(
    st: DetectionState,
    snap: Snapshot,
    d: Decision,
    now_ms: i64,
    now_s: i64,
)
    requires
        st.wf(),
        now_ms >= 0,
    ensures
        apply_decision(st, snap, d, now_ms, now_s).wf(),
{
}

} // verus!
