use rpcs3_presence::text::{contains_ignore_case, eq_ignore_case, is_game_window_title, is_host_process_name};

#[test]
fn host_names_match_case_insensitively() {
    assert!(is_host_process_name("rpcs3"));
    assert!(is_host_process_name("RPCS3"));
    assert!(is_host_process_name("rpcs3.exe"));
    assert!(is_host_process_name("RPCS3.EXE"));
    assert!(is_host_process_name("RpCs3.ExE"));
}

#[test]
fn other_names_do_not_match() {
    assert!(!is_host_process_name("firefox"));
    assert!(!is_host_process_name("rpcs"));
    assert!(!is_host_process_name("rpcs3x"));
    assert!(!is_host_process_name("rpcs3.ex"));
    assert!(!is_host_process_name(""));
    assert!(!is_host_process_name("rpcs3\u{2122}"));
}

#[test]
fn game_titles_match_on_keywords() {
    assert!(is_game_window_title("MotorStorm\u{ae}: Pacific Rift | RPCS3 v0.0.29"));
    assert!(is_game_window_title("PACIFIC RIFT"));
    assert!(is_game_window_title("bces00129"));
    assert!(is_game_window_title("BCUS98155 booting"));
    assert!(is_game_window_title("the storm is coming"));
    assert!(is_game_window_title("Motor show"));
}

#[test]
fn unrelated_titles_do_not_match() {
    assert!(!is_game_window_title(""));
    assert!(!is_game_window_title("Gran Turismo 5"));
    assert!(!is_game_window_title("rpcs3 settings"));
    assert!(!is_game_window_title("stor"));
}

#[test]
fn equality_ignores_only_ascii_case() {
    assert!(eq_ignore_case("", ""));
    assert!(eq_ignore_case("AbC", "aBc"));
    assert!(!eq_ignore_case("abc", "abd"));
    assert!(!eq_ignore_case("abc", "ab"));
}

#[test]
fn containment_ignores_ascii_case() {
    assert!(contains_ignore_case("xxMOTORyy", "motor"));
    assert!(contains_ignore_case("motor", "motor"));
    assert!(contains_ignore_case("anything", ""));
    assert!(!contains_ignore_case("moto", "motor"));
    assert!(!contains_ignore_case("", "motor"));
}
