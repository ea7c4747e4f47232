use fightcore::input::{
    Action, BoxedInput, Button, InputDirection, InputEvent, InputHistory, InputKind, INPUT_BUFFER,
};
use fightcore::movelist::InputMatcher;
use fightcore::time::Frame;

fn at(with_freeze: usize) -> Frame {
    Frame { frame_with_freeze: with_freeze, frame_without_freeze: with_freeze }
}

fn press_event(frame: Frame, button: Button) -> InputEvent {
    InputEvent { frame, kind: InputKind::Button(button), pressed: true }
}

#[test]
fn window_boundary_is_exactly_the_allowed_difference() {
    let mut history = InputHistory::new();
    history.add(press_event(at(10), Button::Punch));
    let matcher = InputMatcher::neutral_normal(Button::Punch);
    for d in 0..=INPUT_BUFFER {
        assert!(matcher.matches(at(10 + d), &history), "d = {d} should be visible");
    }
    for d in (INPUT_BUFFER + 1)..(INPUT_BUFFER + 4) {
        assert!(!matcher.matches(at(10 + d), &history), "d = {d} should be invisible");
    }
}

#[test]
fn window_expires_by_the_with_freeze_counter() {
    // Buffered inputs keep expiring during hitstop: the window is measured
    // on the with-freeze counter even while the other counter stands still.
    let mut history = InputHistory::new();
    history.add(press_event(at(10), Button::Punch));
    let matcher = InputMatcher::neutral_normal(Button::Punch);
    let frozen_later = Frame { frame_with_freeze: 16, frame_without_freeze: 10 };
    assert!(!matcher.matches(frozen_later, &history));
}

#[test]
fn releases_and_other_buttons_do_not_match() {
    let mut history = InputHistory::new();
    history.add(InputEvent { frame: at(10), kind: InputKind::Button(Button::Punch), pressed: false });
    history.add(press_event(at(10), Button::Kick));
    let matcher = InputMatcher::neutral_normal(Button::Punch);
    assert!(!matcher.matches(at(10), &history));
}

#[test]
fn iterator_walks_newest_first_and_stops_at_the_window() {
    let mut history = InputHistory::new();
    history.add(press_event(at(1), Button::Punch));
    history.add(press_event(at(8), Button::Kick));
    history.add(press_event(at(9), Button::Punch));
    let mut it = history.iter(5, at(10));
    assert_eq!(it.next(), Some(press_event(at(9), Button::Punch)));
    assert_eq!(it.next(), Some(press_event(at(8), Button::Kick)));
    // the event at frame 1 is older than the window: the walk ends
    assert_eq!(it.next(), None);
    assert_eq!(it.next(), None);
}

#[test]
fn effective_direction_ignores_the_window() {
    let mut history = InputHistory::new();
    history.add(InputEvent {
        frame: at(1),
        kind: InputKind::Direction(InputDirection::Right),
        pressed: true,
    });
    let it = history.iter(0, at(100));
    assert_eq!(it.input_dir_as_of_here(), InputDirection::Right);
    let empty = InputHistory::new();
    assert_eq!(empty.iter(0, at(100)).input_dir_as_of_here(), InputDirection::Neutral);
}

#[test]
fn effective_direction_takes_the_most_recent_press() {
    let mut history = InputHistory::new();
    history.add(InputEvent {
        frame: at(1),
        kind: InputKind::Direction(InputDirection::Right),
        pressed: true,
    });
    history.add(InputEvent {
        frame: at(2),
        kind: InputKind::Direction(InputDirection::Right),
        pressed: false,
    });
    history.add(InputEvent {
        frame: at(2),
        kind: InputKind::Direction(InputDirection::Left),
        pressed: true,
    });
    let it = history.iter(0, at(3));
    assert_eq!(it.input_dir_as_of_here(), InputDirection::Left);
}

#[test]
fn iterator_window_can_be_retargeted() {
    let mut history = InputHistory::new();
    history.add(press_event(at(10), Button::Punch));
    let mut it = history.iter(0, at(20));
    it.update_allowed_diff(10);
    it.update_frame_basis(at(15));
    assert_eq!(it.next(), Some(press_event(at(10), Button::Punch)));
}

#[test]
fn packed_input_sets_and_clears_bits() {
    let mut b = BoxedInput::new();
    assert!(b.is_released(Action::Punch));
    b.press(Action::Punch);
    b.press(Action::MoveRight);
    assert!(b.is_pressed(Action::Punch));
    assert!(b.is_pressed(Action::MoveRight));
    assert!(b.is_released(Action::Kick));
    b.release(Action::Punch);
    assert!(b.is_released(Action::Punch));
    assert!(b.is_pressed(Action::MoveRight));
    assert_eq!(Action::MoveLeft.bit(), 0);
    assert_eq!(Action::Kick.bit(), 5);
}

#[test]
fn opposite_directions_cancel() {
    let mut b = BoxedInput::new();
    b.press(Action::MoveLeft);
    b.press(Action::MoveRight);
    assert_eq!(b.input_dir(), InputDirection::Neutral);
    b.release(Action::MoveLeft);
    b.press(Action::MoveUp);
    assert_eq!(b.input_dir(), InputDirection::UpRight);
    b.release(Action::MoveRight);
    assert_eq!(b.input_dir(), InputDirection::Up);
    b.release(Action::MoveUp);
    b.press(Action::MoveDown);
    b.press(Action::MoveLeft);
    assert_eq!(b.input_dir(), InputDirection::DownLeft);
}
