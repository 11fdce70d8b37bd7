use pthesis::input::ACTION_PRESS;
use pthesis::input::ACTION_RELEASE;
use pthesis::input::ACTION_REPEAT;
use pthesis::input::InputState;
use pthesis::input::KEY_LEFT_CONTROL;
use pthesis::input::KEY_RIGHT_SHIFT;
use pthesis::input::N_KEYS;

#[test]
fn key_events_track_the_key_table() {
    let mut input = InputState::new();
    assert!(!input.keys_down[65]);
    assert!(input.key_event(65, ACTION_PRESS));
    assert!(input.keys_down[65]);
    assert!(input.key_event(65, ACTION_REPEAT));
    assert!(input.keys_down[65]);
    assert!(input.key_event(65, ACTION_RELEASE));
    assert!(!input.keys_down[65]);
}

#[test]
fn unknown_keys_and_actions_are_ignored() {
    let mut input = InputState::new();
    assert!(!input.key_event(N_KEYS, ACTION_PRESS));
    assert!(!input.key_event(9999, ACTION_PRESS));
    assert!(!input.key_event(65, 77));
    assert!(input.keys_down.iter().all(|k| !k));
}

#[test]
fn modifiers_follow_their_keys() {
    let mut input = InputState::new();
    assert!(!input.key_ctrl);
    input.key_event(KEY_LEFT_CONTROL, ACTION_PRESS);
    assert!(input.key_ctrl);
    input.key_event(KEY_RIGHT_SHIFT, ACTION_PRESS);
    assert!(input.key_shift);
    input.key_event(KEY_LEFT_CONTROL, ACTION_RELEASE);
    assert!(!input.key_ctrl);
    assert!(input.key_shift);
    assert!(!input.key_alt);
}

#[test]
fn mouse_buttons_track_press_and_release() {
    let mut input = InputState::new();
    assert!(input.mouse_button_event(0, ACTION_PRESS));
    assert!(input.mouse_down[0]);
    assert!(!input.mouse_button_event(0, 42));
    assert!(input.mouse_down[0]);
    assert!(input.mouse_button_event(0, ACTION_RELEASE));
    assert!(!input.mouse_down[0]);
}
