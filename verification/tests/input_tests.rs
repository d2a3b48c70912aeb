use asteroids::input::{GamepadInputs, KeyState, KEY_A, KEY_D, KEY_DIGIT1, KEY_SPACE, KEY_W};

#[test]
fn no_key_presses_no_control() {
    let keys = KeyState::new();
    assert_eq!(keys.current_gamepad(), GamepadInputs::new());
}

#[test]
fn pressed_keys_press_their_controls() {
    let mut keys = KeyState::new();
    keys.set(KEY_W, true);
    keys.set(KEY_SPACE, true);
    keys.set(KEY_DIGIT1, true);
    let g = keys.current_gamepad();
    assert!(g.thrust && g.fire && g.p1_start);
    assert!(!g.rotate_left && !g.rotate_right && !g.hyperspace && !g.p2_start);
}

#[test]
fn released_key_is_up_and_others_stay() {
    let mut keys = KeyState::new();
    keys.set(KEY_A, true);
    keys.set(KEY_D, true);
    keys.set(KEY_A, false);
    assert!(!keys.is_key_down(KEY_A));
    assert!(keys.is_key_down(KEY_D));
    keys.clear();
    assert!(!keys.is_key_down(KEY_D));
    assert_eq!(keys.current_gamepad(), GamepadInputs::new());
}
