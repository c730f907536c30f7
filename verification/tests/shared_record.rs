use rpcs3_presence::app::{AppState, LogLevel, LogMessage};
use rpcs3_presence::engine::{apply_report, cycle_times, CycleReport, Decision, DetectionState, Engine};
use rpcs3_presence::scan::usage_or_zero;

fn report_with(logs: Vec<LogMessage>) -> CycleReport {
    CycleReport {
        now_ms: 1_700_000_000_000,
        now_s: 1_700_000_000,
        host_seen: true,
        decision: Decision::Observe,
        logs,
        publish: None,
        clear_error: None,
        connected_display: None,
        reconnect_attempted: false,
        reconnected: false,
        cpu_usage: 3,
        ram_usage: 4096,
    }
}

fn running_detection() -> DetectionState {
    DetectionState {
        game_running: true,
        start_timestamp: Some(1_700_000_000),
        matched_window: Some("Pacific Rift".to_string()),
        last_start_time_ms: 1_700_000_000_000,
        last_stop_time_ms: 0,
    }
}

#[test]
fn report_mirrors_detection_state_and_appends_logs() {
    let mut state = AppState::new();
    let det = running_detection();
    let logs = vec![
        LogMessage { message: "one".to_string(), level: LogLevel::Info },
        LogMessage { message: "two".to_string(), level: LogLevel::Game },
    ];
    apply_report(&mut state, &det, report_with(logs));
    assert!(state.game_running);
    assert_eq!(state.start_timestamp, Some(1_700_000_000));
    assert_eq!(state.matched_window.as_deref(), Some("Pacific Rift"));
    assert_eq!(state.cpu_usage, 3);
    assert_eq!(state.ram_usage, 4096);
    assert_eq!(state.logs.len(), 2);
    assert_eq!(state.logs[0].message, "one");
    assert_eq!(state.logs[1].message, "two");
}

#[test]
fn connection_display_updates_only_when_observed() {
    let mut state = AppState::new();
    let det = running_detection();

    let mut rep = report_with(vec![]);
    rep.connected_display = Some(true);
    apply_report(&mut state, &det, rep);
    assert!(state.discord_connected);

    // A cycle that did not observe the connection leaves the display as is.
    apply_report(&mut state, &det, report_with(vec![]));
    assert!(state.discord_connected);
}

#[test]
fn reconnection_appends_a_success_entry() {
    let mut state = AppState::new();
    let det = running_detection();
    let mut rep = report_with(vec![LogMessage {
        message: "before".to_string(),
        level: LogLevel::Info,
    }]);
    rep.reconnected = true;
    rep.reconnect_attempted = true;
    apply_report(&mut state, &det, rep);
    assert_eq!(state.logs.len(), 2);
    assert_eq!(state.logs[1].message, "Reconnected to Discord");
    assert_eq!(state.logs[1].level, LogLevel::Success);
}

#[test]
fn debug_mode_survives_every_report() {
    let mut state = AppState::new();
    state.toggle_debug();
    assert!(state.debug_mode);
    apply_report(&mut state, &running_detection(), report_with(vec![]));
    assert!(state.debug_mode);
}

#[test]
fn missing_table_entry_samples_as_zero() {
    assert_eq!(usage_or_zero(None), (0, 0));
    assert_eq!(usage_or_zero(Some((5, 6))), (5, 6));
}

#[test]
fn scanner_cycle_runs_against_the_real_process_table() {
    let mut engine = Engine::new();
    // Without a window-title provider the scan degrades to host-process
    // presence, so a cycle can never claim a game window, and the record
    // invariant holds.
    let snap = engine.scanner.scan();
    assert!(!snap.game_window_present);
    assert!(snap.matched_title.is_none());
    let (cpu, ram) = engine.scanner.get_own_usage();
    let (now_ms, now_s) = cycle_times();
    assert!(now_ms >= 0 && now_s >= 0);
    let rep = engine.process_cycle(snap, now_ms, now_s, false, cpu, ram);
    assert!(!engine.det.game_running);
    assert_eq!(engine.det.game_running, engine.det.start_timestamp.is_some());
    assert!(rep.publish.is_none());
}

#[test]
fn process_table_lists_this_process() {
    let mut engine = Engine::new();
    let table = engine.scanner.refresh_table();
    assert!(!table.is_empty());
    let own_pid = table.iter().map(|(pid, _)| *pid).max().unwrap_or(0);
    assert!(own_pid > 0);
}
