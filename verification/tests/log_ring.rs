use rpcs3_presence::app::{AppState, LogLevel};
use rpcs3_presence::config::LOG_CAPACITY;

#[test]
fn ring_keeps_newest_entries_in_order() {
    let mut state = AppState::new();
    for i in 0..(LOG_CAPACITY + 5) {
        state.add_log(LogLevel::Info, format!("msg{}", i));
    }
    assert_eq!(state.logs.len(), LOG_CAPACITY);
    for (k, entry) in state.logs.iter().enumerate() {
        assert_eq!(entry.message, format!("msg{}", k + 5));
    }
}

#[test]
fn ring_below_capacity_only_appends() {
    let mut state = AppState::new();
    for i in 0..7 {
        state.add_log(LogLevel::Game, format!("e{}", i));
    }
    assert_eq!(state.logs.len(), 7);
    assert_eq!(state.logs.front().unwrap().message, "e0");
    assert_eq!(state.logs.back().unwrap().message, "e6");
}

#[test]
fn toggle_debug_flips_and_logs() {
    let mut state = AppState::new();
    assert!(!state.debug_mode);
    state.toggle_debug();
    assert!(state.debug_mode);
    assert_eq!(state.logs.back().unwrap().message, "Debug mode ON");
    assert_eq!(state.logs.back().unwrap().level, LogLevel::Info);
    state.toggle_debug();
    assert!(!state.debug_mode);
    assert_eq!(state.logs.back().unwrap().message, "Debug mode OFF");
}

#[test]
fn clear_logs_leaves_one_entry() {
    let mut state = AppState::new();
    for i in 0..20 {
        state.add_log(LogLevel::Error, format!("e{}", i));
    }
    state.clear_logs();
    assert_eq!(state.logs.len(), 1);
    assert_eq!(state.logs.front().unwrap().message, "Logs cleared");
    assert_eq!(state.logs.front().unwrap().level, LogLevel::Info);
}

#[test]
fn new_state_is_empty_and_idle() {
    let state = AppState::new();
    assert!(!state.game_running);
    assert!(!state.discord_connected);
    assert!(!state.debug_mode);
    assert!(state.logs.is_empty());
    assert!(state.start_timestamp.is_none());
    assert!(state.matched_window.is_none());
    assert_eq!(state.cpu_usage, 0);
    assert_eq!(state.ram_usage, 0);
}
