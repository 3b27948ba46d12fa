use monika_cli::input::InputEvent;
use monika_cli::input::KeyCode;
use monika_cli::input::KeyEvent;
use monika_cli::model::Message;
use monika_cli::model::Model;
use monika_cli::model::RunningState;
use monika_cli::model::API_KEY_LEN;
use monika_cli::update::process_event;
use monika_cli::update::process_message;
use monika_cli::update::update;

fn model_with_counter(counter: i32) -> Model {
    Model {
        counter,
        ..Model::new([7u8; API_KEY_LEN])
    }
}

fn pressed(c: char) -> Option<InputEvent> {
    Some(InputEvent::Key(KeyEvent {
        code: KeyCode::Char(c),
        pressed: true,
    }))
}

#[test]
fn new_model_starts_at_zero_and_running() {
    let key = [42u8; API_KEY_LEN];
    let m = Model::new(key);
    assert_eq!(m.counter, 0);
    assert_eq!(m.running_state, RunningState::Running);
    assert_eq!(m.api_key, key);
    assert!(!m.is_done());
}

#[test]
fn increment_inside_band_has_no_followup() {
    let m = model_with_counter(5);
    let (next, followup) = update(&m, Message::Increment);
    assert_eq!(next.counter, 6);
    assert_eq!(followup, None);
}

#[test]
fn increment_at_band_edge_has_no_followup() {
    // The band test is on the pre-increment value: 50 is still inside.
    let m = model_with_counter(50);
    let (next, followup) = update(&m, Message::Increment);
    assert_eq!(next.counter, 51);
    assert_eq!(followup, None);
}

#[test]
fn increment_past_band_emits_reset() {
    let m = model_with_counter(51);
    let (next, followup) = update(&m, Message::Increment);
    assert_eq!(next.counter, 52);
    assert_eq!(followup, Some(Message::Reset));
}

#[test]
fn decrement_inside_band_has_no_followup() {
    let m = model_with_counter(-50);
    let (next, followup) = update(&m, Message::Decrement);
    assert_eq!(next.counter, -51);
    assert_eq!(followup, None);
}

#[test]
fn decrement_past_band_emits_reset() {
    let m = model_with_counter(-51);
    let (next, followup) = update(&m, Message::Decrement);
    assert_eq!(next.counter, -52);
    assert_eq!(followup, Some(Message::Reset));
}

#[test]
fn reset_zeroes_counter_only() {
    let m = Model {
        running_state: RunningState::Done,
        ..model_with_counter(123)
    };
    let (next, followup) = update(&m, Message::Reset);
    assert_eq!(next.counter, 0);
    assert_eq!(next.running_state, RunningState::Done);
    assert_eq!(next.api_key, m.api_key);
    assert_eq!(followup, None);
}

#[test]
fn quit_marks_done_and_keeps_counter_and_payload() {
    let m = model_with_counter(-7);
    let (next, followup) = update(&m, Message::Quit);
    assert_eq!(next.running_state, RunningState::Done);
    assert_eq!(next.counter, -7);
    assert_eq!(next.api_key, m.api_key);
    assert_eq!(followup, None);
    assert!(next.is_done());
}

#[test]
fn quit_twice_equals_quit_once() {
    let m = model_with_counter(9);
    let once = process_message(&m, Message::Quit);
    let twice = process_message(&once, Message::Quit);
    assert_eq!(once, twice);
}

#[test]
fn payload_never_changes() {
    let key = [0xAB; API_KEY_LEN];
    let m = Model {
        counter: 60,
        ..Model::new(key)
    };
    for msg in [
        Message::Increment,
        Message::Decrement,
        Message::Reset,
        Message::Quit,
    ] {
        let (next, _) = update(&m, msg);
        assert_eq!(next.api_key, key);
        let drained = process_message(&m, msg);
        assert_eq!(drained.api_key, key);
    }
}

#[test]
fn draining_past_band_settles_at_zero() {
    let m = model_with_counter(60);
    let settled = process_message(&m, Message::Increment);
    assert_eq!(settled.counter, 0);
    let m = model_with_counter(-60);
    let settled = process_message(&m, Message::Decrement);
    assert_eq!(settled.counter, 0);
}

#[test]
fn fifty_one_increments_from_zero_reach_fifty_one() {
    // The band test is on the pre-increment value, so the reset is
    // delayed one step past the band edge: the 51st increment moves
    // the counter from 50 to 51 without a follow-up.
    let mut m = Model::new([1u8; API_KEY_LEN]);
    for _ in 0..51 {
        m = process_message(&m, Message::Increment);
    }
    assert_eq!(m.counter, 51);
    assert_eq!(m.running_state, RunningState::Running);
}

#[test]
fn fifty_second_increment_settles_at_zero() {
    // The 52nd increment sees the pre-value 51, which lies past the
    // band, so it emits the follow-up reset and draining yields 0.
    let mut m = Model::new([1u8; API_KEY_LEN]);
    for _ in 0..52 {
        m = process_message(&m, Message::Increment);
    }
    assert_eq!(m.counter, 0);
    assert_eq!(m.running_state, RunningState::Running);
}

#[test]
fn fifty_one_decrements_from_zero_reach_minus_fifty_one() {
    let mut m = Model::new([1u8; API_KEY_LEN]);
    for _ in 0..51 {
        m = process_message(&m, Message::Decrement);
    }
    assert_eq!(m.counter, -51);
}

#[test]
fn fifty_second_decrement_settles_at_zero() {
    let mut m = Model::new([1u8; API_KEY_LEN]);
    for _ in 0..52 {
        m = process_message(&m, Message::Decrement);
    }
    assert_eq!(m.counter, 0);
}

#[test]
fn fifty_increments_stay_at_fifty() {
    let mut m = Model::new([1u8; API_KEY_LEN]);
    for _ in 0..50 {
        m = process_message(&m, Message::Increment);
    }
    assert_eq!(m.counter, 50);
}

#[test]
fn unmapped_key_leaves_model_unchanged() {
    let m = model_with_counter(17);
    let after = process_event(&m, pressed('x'));
    assert_eq!(after, m);
}

#[test]
fn mapped_keys_drive_the_model() {
    let m = Model::new([3u8; API_KEY_LEN]);
    let after = process_event(&m, pressed('j'));
    assert_eq!(after.counter, 1);
    let after = process_event(&m, pressed('k'));
    assert_eq!(after.counter, -1);
    let after = process_event(&m, pressed('q'));
    assert_eq!(after.running_state, RunningState::Done);
}

#[test]
fn timeout_and_non_key_events_leave_model_unchanged() {
    let m = model_with_counter(4);
    assert_eq!(process_event(&m, None), m);
    assert_eq!(process_event(&m, Some(InputEvent::Other)), m);
}

#[test]
fn released_key_leaves_model_unchanged() {
    let m = model_with_counter(4);
    let release = Some(InputEvent::Key(KeyEvent {
        code: KeyCode::Char('j'),
        pressed: false,
    }));
    assert_eq!(process_event(&m, release), m);
}
