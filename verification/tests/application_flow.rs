use speed_typing::application::{App, Focus, Hints, Outcome, State};
use speed_typing::keys::Key;

const QUIET: Outcome = Outcome { restart_timer: false, word_submitted: false };

#[test]
fn focus_cycles_forward_and_back() {
    assert_eq!(Focus::Main.next(), Focus::Extra);
    assert_eq!(Focus::Extra.next(), Focus::Mode);
    assert_eq!(Focus::Mode.next(), Focus::Value);
    assert_eq!(Focus::Value.next(), Focus::Main);
    assert_eq!(Focus::Main.prev(), Focus::Value);
    assert_eq!(Focus::Value.prev(), Focus::Mode);
    assert_eq!(Focus::Mode.prev(), Focus::Extra);
    assert_eq!(Focus::Extra.prev(), Focus::Main);
    for f in [Focus::Main, Focus::Extra, Focus::Mode, Focus::Value] {
        assert_eq!(f.next().prev(), f);
        assert_eq!(f.next().next().next().next(), f);
    }
}

#[test]
fn default_app_is_idle_on_typing_area() {
    let app = App::default();
    assert!(app.is_running());
    assert_eq!(app.focus(), Focus::Main);
    assert_eq!(app.state(), State::Idle);
    assert_eq!(app.hints(), Hints::Idle);
    let extras: Vec<&str> = app.extra_box().items_ref().iter().map(|s| s.as_str()).collect();
    assert_eq!(extras, vec!["punctuation", "numbers"]);
    assert_eq!(app.mode_box().selected(), "time");
    assert_eq!(app.value_box().selected(), "15");
    assert_eq!(app.value_box().items_ref().len(), 4);
    assert_eq!(app.game().target_words().len(), 82);
}

#[test]
fn tab_and_back_tab_move_focus() {
    let mut app = App::default();
    assert_eq!(app.handle_key_event(Key::Tab), QUIET);
    assert_eq!(app.focus(), Focus::Extra);
    assert_eq!(app.hints(), Hints::Checkboxes);
    app.handle_key_event(Key::Tab);
    assert_eq!(app.focus(), Focus::Mode);
    assert_eq!(app.hints(), Hints::Options);
    app.handle_key_event(Key::BackTab);
    assert_eq!(app.focus(), Focus::Extra);
    app.handle_key_event(Key::BackTab);
    app.handle_key_event(Key::BackTab);
    assert_eq!(app.focus(), Focus::Value);
    assert_eq!(app.hints(), Hints::Options);
}

#[test]
fn changing_focus_discards_widget_cursors() {
    let mut app = App::default();
    app.handle_key_event(Key::Tab);
    app.handle_key_event(Key::Tab);
    app.handle_key_event(Key::Right);
    assert_eq!(app.mode_box().selected(), "time");
    app.handle_key_event(Key::Tab);
    app.handle_key_event(Key::BackTab);
    // The cursor went back to the selection, so Enter keeps "time".
    app.handle_key_event(Key::Enter);
    assert_eq!(app.mode_box().selected(), "time");
    app.handle_key_event(Key::Right);
    app.handle_key_event(Key::Enter);
    assert_eq!(app.mode_box().selected(), "words");
}

#[test]
fn keys_go_to_focused_widget() {
    let mut app = App::default();
    app.handle_key_event(Key::Tab);
    app.handle_key_event(Key::Right);
    assert_eq!(app.handle_key_event(Key::Enter), QUIET);
    assert_eq!(app.extra_box().checked_indices(), vec![1]);
    app.handle_key_event(Key::Tab);
    app.handle_key_event(Key::Tab);
    app.handle_key_event(Key::Right);
    app.handle_key_event(Key::Right);
    app.handle_key_event(Key::Enter);
    assert_eq!(app.value_box().selected(), "45");
    assert_eq!(app.state(), State::Idle);
    assert!(app.game().current_word().is_empty());
}

#[test]
fn esc_outside_typing_area_returns_focus() {
    let mut app = App::default();
    app.handle_key_event(Key::Tab);
    app.handle_key_event(Key::Tab);
    assert_eq!(app.handle_key_event(Key::Esc), QUIET);
    assert_eq!(app.focus(), Focus::Main);
    assert!(app.is_running());
}

#[test]
fn esc_in_idle_typing_area_quits() {
    let mut app = App::default();
    assert_eq!(app.handle_key_event(Key::Esc), QUIET);
    assert!(!app.is_running());
}

#[test]
fn exit_stops_the_loop() {
    let mut app = App::default();
    app.exit();
    assert!(!app.is_running());
}

#[test]
fn first_key_starts_a_test() {
    let mut app = App::default();
    let outcome = app.handle_key_event(Key::Char('L'));
    assert_eq!(outcome, Outcome { restart_timer: true, word_submitted: false });
    assert_eq!(app.state(), State::Game);
    assert_eq!(app.hints(), Hints::Playing);
    assert_eq!(app.game().current_word(), &vec!['L']);
    for c in "orem".chars() {
        assert_eq!(app.handle_key_event(Key::Char(c)), QUIET);
    }
    assert_eq!(
        app.handle_key_event(Key::Char(' ')),
        Outcome { restart_timer: false, word_submitted: true }
    );
    assert_eq!(app.game().statistics().words(), 1);
}

#[test]
fn tab_during_a_test_does_not_move_focus() {
    let mut app = App::default();
    app.handle_key_event(Key::Char('L'));
    assert_eq!(app.handle_key_event(Key::Tab), QUIET);
    assert_eq!(app.focus(), Focus::Main);
    assert_eq!(app.state(), State::Game);
}

#[test]
fn esc_stops_a_test_then_quits() {
    let mut app = App::default();
    for c in "Lorem ip".chars() {
        app.handle_key_event(Key::Char(c));
    }
    let outcome = app.handle_key_event(Key::Esc);
    assert_eq!(outcome, Outcome { restart_timer: true, word_submitted: false });
    assert_eq!(app.state(), State::Idle);
    assert!(app.is_running());
    assert!(app.game().completed_words().is_empty());
    assert!(app.game().current_word().is_empty());
    assert_eq!(app.game().statistics().words(), 1);
    app.handle_key_event(Key::Esc);
    assert!(!app.is_running());
}
