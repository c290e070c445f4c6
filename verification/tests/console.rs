use pomodorro_rust::console::{key_action, pause_after, pause_line, status_line, KeyAction};
use pomodorro_rust::pomodoro::StateType;

#[test]
fn q_quits_and_p_pauses_in_either_case() {
    assert_eq!(key_action('q'), KeyAction::Quit);
    assert_eq!(key_action('Q'), KeyAction::Quit);
    assert_eq!(key_action('p'), KeyAction::TogglePause);
    assert_eq!(key_action('P'), KeyAction::TogglePause);
}

#[test]
fn other_keys_are_ignored() {
    for key in ['a', 'x', ' ', '\n', '1', 'r', 'O', 'é'] {
        assert_eq!(key_action(key), KeyAction::Ignore);
    }
}

#[test]
fn the_first_line_names_the_phase() {
    assert_eq!(
        status_line(StateType::Work),
        "Pomodoro Timer: Work in progress. Press 'q' to exit"
    );
    assert_eq!(
        status_line(StateType::ShortBreak),
        "Pomodoro Timer: Short Break. Press 'q' to exit"
    );
    assert_eq!(
        status_line(StateType::LongBreak),
        "Pomodoro Timer: Long Break. Press 'q' to exit"
    );
}

#[test]
fn the_second_line_follows_the_pause_flag() {
    assert_eq!(pause_line(true), "(Paused) Press 'p' to resume");
    assert_eq!(pause_line(false), "Press 'p' to pause");
}

#[test]
fn only_the_pause_key_turns_the_pause_round() {
    for paused in [false, true] {
        assert_eq!(pause_after(paused, KeyAction::TogglePause), !paused);
        assert_eq!(pause_after(paused, KeyAction::Quit), paused);
        assert_eq!(pause_after(paused, KeyAction::Ignore), paused);
    }
}
