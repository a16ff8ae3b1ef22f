use std::time::{Duration, Instant};
use yamori::app::{App, PopupType, HISTORY_TAB, NOTICE_SECONDS, TAB_COUNT};
use yamori::config::{BuildConfig, TestConfig};
use yamori::keys::{Effect, Key};
use yamori::outcome::TestResult;

fn result(name: &str, success: bool) -> TestResult {
    TestResult {
        name: name.to_string(),
        success,
        actual_output: String::new(),
        diff: if success { None } else { Some(Vec::new()) },
        command: "cmd".to_string(),
        args: vec!["a".to_string(), "b".to_string()],
        input: Some("in".to_string()),
        execution_time: Duration::from_millis(40),
        is_release: false,
        build_commands: None,
    }
}

fn results(flags: &[bool]) -> Vec<TestResult> {
    flags.iter().enumerate().map(|(i, ok)| result(&format!("t{}", i), *ok)).collect()
}

fn config() -> TestConfig {
    TestConfig {
        tests: Vec::new(),
        build: Some(BuildConfig { release: false, pre_build_commands: None }),
    }
}

fn app(flags: &[bool]) -> App {
    App::new_at(results(flags), config(), 1000)
}

#[test]
fn new_session_is_seeded() {
    let app = app(&[true, false]);
    assert_eq!(app.test_results().len(), 2);
    assert_eq!(app.selected_test(), 0);
    assert_eq!(app.tab_index(), 0);
    assert!(!app.show_help());
    assert!(!app.release_mode());
    assert_eq!(app.history().len(), 1);
    assert_eq!(app.history()[0].timestamp, 1000);
    assert_eq!(app.history()[0].test_results.len(), 2);
    assert!(!app.history()[0].release_mode);
    assert_eq!(app.selected_history(), 0);
    assert!(!app.viewing_history());
    assert!(!app.show_popup());
    assert_eq!(app.popup_type(), PopupType::Closed);
    assert!(!app.result_popup_visible());
    assert_eq!(app.result_popup_message(), "");
    let clocked = App::new(results(&[true]), config());
    assert_eq!(clocked.history().len(), 1);
    assert!(clocked.history()[0].timestamp > 1_600_000_000);
}

#[test]
fn selection_goes_round() {
    let mut app = app(&[true, true, true]);
    app.next();
    assert_eq!(app.selected_test(), 1);
    app.next();
    app.next();
    assert_eq!(app.selected_test(), 0);
    app.previous();
    assert_eq!(app.selected_test(), 2);
    app.previous();
    assert_eq!(app.selected_test(), 1);
    let mut empty = self::app(&[]);
    empty.next();
    empty.previous();
    assert_eq!(empty.selected_test(), 0);
}

#[test]
fn tabs_go_round() {
    let mut app = app(&[true]);
    for expected in [1, 2, 3, 4, 0] {
        app.next_tab();
        assert_eq!(app.tab_index(), expected);
    }
    app.previous_tab();
    assert_eq!(app.tab_index(), TAB_COUNT - 1);
    app.previous_tab();
    assert_eq!(app.tab_index(), 3);
}

#[test]
fn build_mode_toggle_reaches_the_suite() {
    let mut app = app(&[true]);
    app.toggle_release_mode();
    assert!(app.release_mode());
    assert!(app.config().build.as_ref().unwrap().release);
    app.toggle_release_mode();
    assert!(!app.release_mode());
    assert!(!app.config().build.as_ref().unwrap().release);
    let mut bare = App::new_at(Vec::new(), TestConfig { tests: Vec::new(), build: None }, 0);
    bare.toggle_release_mode();
    assert!(bare.release_mode());
    assert!(bare.config().build.is_none());
    bare.set_release_mode(false);
    assert!(!bare.release_mode());
    assert!(bare.config().build.is_none());
}

#[test]
fn stats_count_successes() {
    assert_eq!(app(&[true, false, true, true]).get_stats(), (3, 4));
    assert_eq!(app(&[]).get_stats(), (0, 0));
    assert_eq!(app(&[false]).get_stats(), (0, 1));
}

#[test]
fn command_details_follow_the_selection() {
    let mut app = app(&[true, false]);
    app.next();
    let (command, args, input, time, is_release, build) = app.get_command_details().unwrap();
    assert_eq!(command, "cmd");
    assert_eq!(args, ["a".to_string(), "b".to_string()]);
    assert_eq!(input, Some(&"in".to_string()));
    assert_eq!(time.as_millis(), 40);
    assert!(!is_release);
    assert!(build.is_none());
    assert!(self::app(&[]).get_command_details().is_none());
}

#[test]
fn history_grows_by_one_entry_per_run() {
    let mut app = app(&[true]);
    for n in 1..=4u64 {
        app.record_run_at(results(&[n % 2 == 0, true]), 1000 + n);
        assert_eq!(app.history().len() as u64, n + 1);
        assert_eq!(app.selected_history() as u64, n);
        assert_eq!(app.test_results().len(), 2);
    }
    let stamps: Vec<u64> = app.history().iter().map(|h| h.timestamp).collect();
    assert_eq!(stamps, vec![1000, 1001, 1002, 1003, 1004]);
    assert_eq!(
        app.get_history_stats(),
        vec![
            (1000, 1, 1, false),
            (1001, 1, 2, false),
            (1002, 2, 2, false),
            (1003, 1, 2, false),
            (1004, 2, 2, false),
        ]
    );
    app.record_run(results(&[true]));
    assert_eq!(app.history().len(), 6);
}

#[test]
fn add_to_history_logs_what_is_on_display() {
    let mut app = app(&[true, false]);
    app.toggle_release_mode();
    app.add_to_history_at(5);
    assert_eq!(app.history().len(), 2);
    assert_eq!(app.selected_history(), 1);
    assert_eq!(app.history()[1].timestamp, 5);
    assert_eq!(app.history()[1].test_results.len(), 2);
    assert!(app.history()[1].release_mode);
    assert!(!app.history()[0].release_mode);
    app.add_to_history();
    assert_eq!(app.history().len(), 3);
    assert_eq!(app.selected_history(), 2);
}

#[test]
fn history_navigation_goes_round_and_shows_entries() {
    let mut app = app(&[true]);
    app.record_run_at(results(&[true, true]), 2);
    app.toggle_release_mode();
    app.record_run_at(results(&[false, false, false]), 3);
    assert_eq!(app.selected_history(), 2);
    app.next_history();
    assert_eq!(app.selected_history(), 0);
    assert_eq!(app.test_results().len(), 1);
    assert!(!app.release_mode());
    app.next_history();
    assert_eq!(app.selected_history(), 1);
    assert_eq!(app.test_results().len(), 2);
    app.previous_history();
    app.previous_history();
    assert_eq!(app.selected_history(), 2);
    assert_eq!(app.test_results().len(), 3);
    assert!(app.release_mode());
    assert_eq!(app.history().len(), 3);
    for _ in 0..app.history().len() {
        app.next_history();
    }
    assert_eq!(app.selected_history(), 2);
}

#[test]
fn history_view_selects_the_newest() {
    let mut app = app(&[true]);
    app.record_run_at(results(&[true]), 2);
    app.previous_history();
    app.toggle_history_view();
    assert_eq!(app.tab_index(), HISTORY_TAB);
    assert_eq!(app.selected_history(), 1);
}

#[test]
fn reset_brings_the_selection_back() {
    let mut app = app(&[true, true, true]);
    app.next();
    app.next();
    app.next_tab();
    app.record_run_at(results(&[true]), 2);
    assert_eq!(app.selected_test(), 0);
    assert_eq!(app.tab_index(), 0);
    let mut kept = self::app(&[true, true, true]);
    kept.next();
    kept.next_tab();
    kept.reset_ui_state();
    assert_eq!(kept.selected_test(), 1);
    assert_eq!(kept.tab_index(), 0);
}

#[test]
fn popups_open_and_close() {
    let mut app = app(&[true]);
    app.toggle_popup(PopupType::RunTests);
    assert!(app.show_popup());
    assert_eq!(app.popup_type(), PopupType::RunTests);
    app.toggle_popup(PopupType::BuildToggle);
    assert!(app.show_popup());
    assert_eq!(app.popup_type(), PopupType::BuildToggle);
    app.toggle_popup(PopupType::BuildToggle);
    assert!(!app.show_popup());
    assert_eq!(app.popup_type(), PopupType::Closed);
    app.toggle_popup(PopupType::RunRelease);
    app.close_popup();
    assert!(!app.show_popup());
    assert_eq!(app.popup_type(), PopupType::Closed);
}

#[test]
fn notice_goes_away_when_due() {
    let mut app = app(&[true]);
    assert!(!app.expire_result_popup(100));
    app.show_result_popup_at("done".to_string(), Instant::now());
    assert!(app.result_popup_visible());
    assert_eq!(app.result_popup_message(), "done");
    assert_eq!(app.popup_type(), PopupType::ResultNotification);
    assert!(!app.expire_result_popup(NOTICE_SECONDS - 1));
    assert!(app.result_popup_visible());
    assert!(!app.update_result_popup());
    assert!(app.expire_result_popup(NOTICE_SECONDS));
    assert!(!app.result_popup_visible());
    assert!(!app.expire_result_popup(NOTICE_SECONDS));
    app.show_result_popup("again".to_string());
    assert!(app.result_popup_visible());
    app.dismiss_result_popup();
    assert!(!app.result_popup_visible());
    assert!(!app.update_result_popup());
}

#[test]
fn keys_move_about() {
    let mut app = app(&[true, true]);
    assert_eq!(app.handle_key(Key::Down), Effect::Stay);
    assert_eq!(app.selected_test(), 1);
    assert_eq!(app.handle_key(Key::Char('k')), Effect::Stay);
    assert_eq!(app.selected_test(), 0);
    app.handle_key(Key::Right);
    app.handle_key(Key::Char('l'));
    assert_eq!(app.tab_index(), 2);
    app.handle_key(Key::Left);
    app.handle_key(Key::Char('h'));
    assert_eq!(app.tab_index(), 0);
    assert_eq!(app.handle_key(Key::Other), Effect::Stay);
    assert_eq!(app.handle_key(Key::Char('x')), Effect::Stay);
    assert_eq!(app.handle_key(Key::Enter), Effect::Stay);
    assert_eq!(app.handle_key(Key::Char('q')), Effect::Quit);
}

#[test]
fn help_and_popups_cover_the_display() {
    let mut app = app(&[true, true]);
    app.handle_key(Key::Char('?'));
    assert!(app.show_help());
    app.handle_key(Key::Down);
    app.handle_key(Key::Right);
    app.handle_key(Key::Char('r'));
    app.handle_key(Key::Char('H'));
    assert_eq!(app.selected_test(), 0);
    assert_eq!(app.tab_index(), 0);
    assert!(!app.show_popup());
    assert_eq!(app.handle_key(Key::Char('q')), Effect::Quit);
    app.handle_key(Key::Esc);
    assert!(!app.show_help());
    app.handle_key(Key::Char('r'));
    assert!(app.show_popup());
    assert_eq!(app.handle_key(Key::Char('q')), Effect::Stay);
    app.handle_key(Key::Char('?'));
    assert!(!app.show_help());
    app.handle_key(Key::Up);
    assert_eq!(app.selected_test(), 0);
    app.handle_key(Key::Esc);
    assert!(!app.show_popup());
}

#[test]
fn confirming_a_popup_asks_for_its_action() {
    let mut app = app(&[true]);
    app.handle_key(Key::Char('r'));
    assert_eq!(app.handle_key(Key::Enter), Effect::Run { release: false });
    assert!(!app.show_popup());
    assert!(!app.config().build.as_ref().unwrap().release);

    app.handle_key(Key::Char('R'));
    assert_eq!(app.popup_type(), PopupType::RunRelease);
    assert_eq!(app.handle_key(Key::Enter), Effect::Run { release: true });
    assert!(app.config().build.as_ref().unwrap().release);
    assert!(app.release_mode());

    app.handle_key(Key::Char('b'));
    assert_eq!(app.handle_key(Key::Enter), Effect::BuildModeChanged { release: false });
    assert!(!app.release_mode());
    assert!(!app.config().build.as_ref().unwrap().release);
    app.handle_key(Key::Char('b'));
    assert_eq!(app.handle_key(Key::Enter), Effect::BuildModeChanged { release: true });
    assert!(app.release_mode());
    app.handle_key(Key::Char('b'));
    assert_eq!(app.handle_key(Key::Enter), Effect::BuildModeChanged { release: false });
    assert!(!app.release_mode());
    assert!(!app.config().build.as_ref().unwrap().release);
}

#[test]
fn history_tab_loads_entries() {
    let mut app = app(&[true]);
    app.record_run_at(results(&[true, false]), 77);
    app.handle_key(Key::Char('H'));
    assert_eq!(app.tab_index(), HISTORY_TAB);
    app.handle_key(Key::Char('j'));
    assert_eq!(app.selected_history(), 0);
    app.handle_key(Key::Up);
    assert_eq!(app.selected_history(), 1);
    assert_eq!(app.handle_key(Key::Enter), Effect::HistoryLoaded { entry: 2, timestamp: 77 });
    assert_eq!(app.tab_index(), 0);
    assert_eq!(app.test_results().len(), 2);
    app.load_selected_history();
    assert_eq!(app.selected_history(), 1);
}

#[test]
fn escape_takes_the_notice_down_last() {
    let mut app = app(&[true]);
    app.show_result_popup("note".to_string());
    app.handle_key(Key::Char('?'));
    app.handle_key(Key::Esc);
    assert!(!app.show_help());
    assert!(app.result_popup_visible());
    app.handle_key(Key::Esc);
    assert!(!app.result_popup_visible());
    assert_eq!(app.handle_key(Key::Esc), Effect::Stay);
}

#[test]
fn release_run_is_logged_as_release() {
    let mut app = app(&[true]);
    app.handle_key(Key::Char('R'));
    assert_eq!(app.handle_key(Key::Enter), Effect::Run { release: true });
    assert!(app.config().suite_release());
    app.record_run_at(results(&[true, true]), 2000);
    assert_eq!(app.history().len(), 2);
    assert!(!app.history()[0].release_mode);
    assert!(app.history()[1].release_mode);
    assert_eq!(app.history()[1].test_results.len(), 2);
    assert!(app.release_mode());
    assert_eq!(app.get_history_stats()[1], (2000, 2, 2, true));
}

#[test]
fn run_is_logged_in_the_mode_of_the_suite() {
    let release_suite = TestConfig {
        tests: Vec::new(),
        build: Some(BuildConfig { release: true, pre_build_commands: None }),
    };
    let mut app = App::new_at(results(&[true]), release_suite, 1);
    assert!(!app.release_mode());
    assert!(!app.history()[0].release_mode);
    app.handle_key(Key::Char('r'));
    assert_eq!(app.handle_key(Key::Enter), Effect::Run { release: false });
    app.record_run_at(results(&[false]), 2);
    assert!(app.history()[1].release_mode);
    assert!(app.release_mode());

    let mut bare = App::new_at(Vec::new(), TestConfig { tests: Vec::new(), build: None }, 1);
    bare.handle_key(Key::Char('R'));
    assert_eq!(bare.handle_key(Key::Enter), Effect::Run { release: true });
    assert!(!bare.config().suite_release());
    bare.record_run_at(Vec::new(), 2);
    assert!(!bare.history()[1].release_mode);
    assert!(!bare.release_mode());

    let mut toggled = self::app(&[true]);
    toggled.toggle_release_mode();
    toggled.record_run_at(results(&[true]), 3);
    assert!(toggled.history()[1].release_mode);
    toggled.toggle_release_mode();
    toggled.record_run_at(results(&[true]), 4);
    assert!(!toggled.history()[2].release_mode);
    assert!(toggled.history()[1].release_mode);
}
