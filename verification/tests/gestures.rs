use event_viewer::event::{EventType, InputEvent, KeyInput, MouseButton, MouseInput};
use event_viewer::state::AppState;

const MS: u128 = 1_000_000;

fn key(text: &str) -> KeyInput {
    KeyInput { key: text.to_string(), code: text.to_string() }
}

fn key_down(text: &str) -> InputEvent {
    InputEvent::KeyDown(key(text))
}

fn key_up(text: &str) -> InputEvent {
    InputEvent::KeyUp(key(text))
}

fn mouse_down(button: MouseButton) -> InputEvent {
    InputEvent::MouseDown(MouseInput { button })
}

fn mouse_up(button: MouseButton) -> InputEvent {
    InputEvent::MouseUp(MouseInput { button })
}

#[test]
fn new_state_is_empty() {
    let state = AppState::new();
    assert!(state.latencies().is_empty());
    assert_eq!(state.pending_count(), 0);
    assert_eq!(state.pending_press("a"), None);
}

#[test]
fn key_press_then_release_logs_one_record() {
    let mut state = AppState::new();
    state.record_event(&key_down("a"), 0);
    assert_eq!(state.latencies().len(), 0);
    assert_eq!(state.pending_press("Key:a"), Some(0));
    state.record_event(&key_up("a"), 200 * MS);
    assert_eq!(state.latencies().len(), 1);
    let record = &state.latencies()[0];
    assert_eq!(record.typ(), EventType::KeyUp);
    assert_eq!(record.code(), "a");
    assert_eq!(record.nanos(), 200 * MS);
    assert_eq!(record.duration(), "200ms");
    assert_eq!(state.pending_count(), 0);
}

#[test]
fn repeated_mouse_press_is_measured_from_the_first() {
    let mut state = AppState::new();
    state.record_event(&mouse_down(MouseButton::Left), 0);
    state.record_event(&mouse_down(MouseButton::Left), 50 * MS);
    assert_eq!(state.pending_press("Mouse:Left"), Some(0));
    assert_eq!(state.pending_count(), 1);
    state.record_event(&mouse_up(MouseButton::Left), 300 * MS);
    assert_eq!(state.latencies().len(), 1);
    let record = &state.latencies()[0];
    assert_eq!(record.typ(), EventType::MouseUp);
    assert_eq!(record.nanos(), 300 * MS);
    assert_ne!(record.nanos(), 250 * MS);
    assert_eq!(record.code(), "Left");
    assert_eq!(state.pending_count(), 0);
}

#[test]
fn stray_release_is_ignored() {
    let mut state = AppState::new();
    state.record_event(&key_up("Escape"), 7 * MS);
    assert!(state.latencies().is_empty());
    assert_eq!(state.pending_count(), 0);

    state.record_event(&key_down("a"), 10 * MS);
    assert!(!state.record_event(&key_up("Escape"), 20 * MS));
    assert!(state.latencies().is_empty());
    assert_eq!(state.pending_count(), 1);
    assert_eq!(state.pending_press("Key:a"), Some(10 * MS));
    assert_eq!(state.pending_press("Key:Escape"), None);
}

#[test]
fn stray_release_returns_no_duration() {
    let mut state = AppState::new();
    state.on_press("a".to_string(), 3);
    assert_eq!(state.on_release("Escape", 9), None);
    assert_eq!(state.pending_press("a"), Some(3));
    assert_eq!(state.pending_count(), 1);
}

#[test]
fn on_press_keeps_the_first_timestamp() {
    let mut state = AppState::new();
    state.on_press("q".to_string(), 11);
    state.on_press("q".to_string(), 99);
    assert_eq!(state.pending_press("q"), Some(11));
    assert_eq!(state.pending_count(), 1);
    assert_eq!(state.on_release("q", 111), Some(100));
}

#[test]
fn on_release_measures_and_forgets() {
    let mut state = AppState::new();
    state.on_press("w".to_string(), 1_000);
    assert_eq!(state.on_release("w", 4_500), Some(3_500));
    assert_eq!(state.pending_press("w"), None);
    assert_eq!(state.on_release("w", 5_000), None);
    assert!(state.latencies().is_empty());
}

#[test]
fn release_stamped_before_its_press_counts_as_zero() {
    let mut state = AppState::new();
    state.on_press("e".to_string(), 500);
    assert_eq!(state.on_release("e", 499), Some(0));
    assert_eq!(state.pending_count(), 0);

    state.record_event(&key_down("e"), 9_000);
    state.record_event(&key_up("e"), 1);
    assert_eq!(state.latencies().len(), 1);
    assert_eq!(state.latencies()[0].nanos(), 0);
}

#[test]
fn release_at_the_press_timestamp_measures_zero() {
    let mut state = AppState::new();
    state.on_press("e".to_string(), u128::MAX);
    assert_eq!(state.on_release("e", u128::MAX), Some(0));
}

#[test]
fn longest_possible_gesture() {
    let mut state = AppState::new();
    state.on_press("e".to_string(), 0);
    assert_eq!(state.on_release("e", u128::MAX), Some(u128::MAX));
}

#[test]
fn interleaved_gestures_each_measure_their_own_delta() {
    let mut state = AppState::new();
    state.record_event(&key_down("a"), 10);
    state.record_event(&mouse_down(MouseButton::Right), 20);
    state.record_event(&key_down("b"), 30);
    assert_eq!(state.pending_count(), 3);
    state.record_event(&key_up("a"), 110);
    state.record_event(&key_up("b"), 530);
    state.record_event(&mouse_up(MouseButton::Right), 1_020);
    assert_eq!(state.pending_count(), 0);
    let log = state.latencies();
    assert_eq!(log.len(), 3);
    assert_eq!(log[2].code(), "a");
    assert_eq!(log[2].nanos(), 100);
    assert_eq!(log[1].code(), "b");
    assert_eq!(log[1].nanos(), 500);
    assert_eq!(log[0].code(), "Right");
    assert_eq!(log[0].nanos(), 1_000);
}

#[test]
fn log_is_newest_first() {
    let mut state = AppState::new();
    for (i, name) in ["x", "y", "z"].iter().enumerate() {
        let at = (i as u128) * 1_000;
        state.record_event(&key_down(name), at);
        state.record_event(&key_up(name), at + 1 + i as u128);
        assert_eq!(state.latencies()[0].code(), *name);
        assert_eq!(state.latencies().len(), i + 1);
    }
    let codes: Vec<String> = state.latencies().iter().map(|r| r.code()).collect();
    assert_eq!(codes, vec!["z", "y", "x"]);
    let nanos: Vec<u128> = state.latencies().iter().map(|r| r.nanos()).collect();
    assert_eq!(nanos, vec![3, 2, 1]);
}

#[test]
fn same_key_can_be_measured_again() {
    let mut state = AppState::new();
    state.record_event(&key_down("a"), 0);
    state.record_event(&key_up("a"), 5);
    state.record_event(&key_down("a"), 100);
    state.record_event(&key_up("a"), 107);
    assert_eq!(state.latencies().len(), 2);
    assert_eq!(state.latencies()[0].nanos(), 7);
    assert_eq!(state.latencies()[1].nanos(), 5);
}

#[test]
fn other_events_change_nothing() {
    let mut state = AppState::new();
    state.record_event(&key_down("a"), 1);
    assert!(!state.record_event(&InputEvent::Other, 2));
    assert_eq!(state.pending_count(), 1);
    assert_eq!(state.pending_press("Key:a"), Some(1));
    assert!(state.latencies().is_empty());
    assert!(!state.reads_clock(&InputEvent::Other));
}

#[test]
fn keys_and_buttons_are_tracked_apart() {
    let mut state = AppState::new();
    state.record_event(&key_down("a"), 1);
    state.record_event(&mouse_down(MouseButton::Left), 2);
    state.record_event(&mouse_down(MouseButton::Middle), 3);
    assert_eq!(state.pending_count(), 3);
    assert_eq!(state.pending_press("Key:a"), Some(1));
    assert_eq!(state.pending_press("Mouse:Left"), Some(2));
    assert_eq!(state.pending_press("Mouse:Middle"), Some(3));
    state.record_event(&mouse_up(MouseButton::Left), 12);
    assert_eq!(state.pending_press("Key:a"), Some(1));
    assert_eq!(state.pending_press("Mouse:Left"), None);
    assert_eq!(state.pending_press("Mouse:Middle"), Some(3));
}

#[test]
fn key_named_like_a_button_does_not_meet_the_button() {
    let mut state = AppState::new();
    assert!(!state.record_event(&mouse_down(MouseButton::Left), 0));
    assert!(!state.record_event(&key_up("Left"), 10));
    assert!(state.latencies().is_empty());
    assert_eq!(state.pending_press("Mouse:Left"), Some(0));
    assert!(!state.record_event(&key_down("Left"), 20));
    assert_eq!(state.pending_count(), 2);
    assert!(state.record_event(&mouse_up(MouseButton::Left), 30));
    assert!(state.record_event(&key_up("Left"), 45));
    let log = state.latencies();
    assert_eq!(log.len(), 2);
    assert_eq!(log[1].typ(), EventType::MouseUp);
    assert_eq!(log[1].nanos(), 30);
    assert_eq!(log[0].typ(), EventType::KeyUp);
    assert_eq!(log[0].nanos(), 25);
}

#[test]
fn record_event_reports_whether_it_logged() {
    let mut state = AppState::new();
    assert!(!state.record_event(&key_down("a"), 1));
    assert!(!state.record_event(&key_down("a"), 2));
    assert!(state.record_event(&key_up("a"), 3));
    assert!(!state.record_event(&key_up("a"), 4));
    assert_eq!(state.latencies().len(), 1);
}

#[test]
fn key_is_tracked_by_its_text_and_shown_by_its_code() {
    let mut state = AppState::new();
    let down = InputEvent::KeyDown(KeyInput { key: "a".to_string(), code: "KeyA".to_string() });
    let up = InputEvent::KeyUp(KeyInput { key: "a".to_string(), code: "KeyA".to_string() });
    state.record_event(&down, 0);
    assert_eq!(state.pending_press("Key:a"), Some(0));
    assert_eq!(state.pending_press("Key:KeyA"), None);
    assert_eq!(state.pending_press("a"), None);
    state.record_event(&up, 8);
    assert_eq!(state.latencies()[0].code(), "KeyA");
}

#[test]
fn reads_clock_only_where_the_outcome_depends_on_it() {
    let mut state = AppState::new();
    assert!(state.reads_clock(&key_down("a")));
    assert!(!state.reads_clock(&key_up("a")));
    state.record_event(&key_down("a"), 0);
    assert!(!state.reads_clock(&key_down("a")));
    assert!(state.reads_clock(&key_up("a")));
    assert!(state.reads_clock(&key_down("b")));
    assert!(!state.reads_clock(&mouse_up(MouseButton::X1)));
}

#[test]
fn handle_event_times_a_gesture_by_the_system_clock() {
    let mut state = AppState::new();
    assert_eq!(state.handle_event(&key_down("a")), Ok(false));
    assert_eq!(state.pending_count(), 1);
    let pressed = state.pending_press("Key:a").unwrap();
    // The clock shows a moment after the first of January 2020.
    assert!(pressed > 1_577_836_800 * 1_000_000_000);
    assert_eq!(state.handle_event(&key_down("a")), Ok(false));
    assert_eq!(state.pending_press("Key:a"), Some(pressed));
    assert_eq!(state.handle_event(&key_up("a")), Ok(true));
    assert_eq!(state.pending_count(), 0);
    assert_eq!(state.latencies().len(), 1);
    assert_eq!(state.latencies()[0].typ(), EventType::KeyUp);
    assert_eq!(state.latencies()[0].code(), "a");
}

#[test]
fn handle_event_ignores_a_stray_release() {
    let mut state = AppState::new();
    assert_eq!(state.handle_event(&key_up("Escape")), Ok(false));
    assert_eq!(state.handle_event(&InputEvent::Other), Ok(false));
    assert!(state.latencies().is_empty());
    assert_eq!(state.pending_count(), 0);
}
