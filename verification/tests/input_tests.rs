use butter_engine::input::{ElementState, Input, KEY_F5, KEY_W, MOUSE_LEFT, MOUSE_RIGHT};

#[test]
fn fresh_input_reports_everything_released() {
    let input = Input::new();
    assert!(input.keyboard_released(KEY_W));
    assert!(!input.keyboard_pressed(KEY_W));
    assert!(!input.keyboard_just_pressed(KEY_W));
    assert!(input.mouse_released(MOUSE_LEFT));
    assert_eq!(input.delta_xpos(), 0);
    assert_eq!(input.delta_ypos(), 0);
}

#[test]
fn press_is_just_pressed_until_the_next_refresh() {
    let mut input = Input::new();
    input.dispatch_keyboard(KEY_F5, ElementState::Pressed);
    assert!(input.keyboard_just_pressed(KEY_F5));
    assert!(!input.keyboard_pressed(KEY_F5));
    input.update();
    assert!(!input.keyboard_just_pressed(KEY_F5));
    assert!(input.keyboard_pressed(KEY_F5));
    input.update();
    assert!(input.keyboard_pressed(KEY_F5));
}

#[test]
fn repeated_press_without_release_is_held_not_fresh() {
    let mut input = Input::new();
    input.dispatch_keyboard(KEY_W, ElementState::Pressed);
    input.dispatch_keyboard(KEY_W, ElementState::Pressed);
    assert!(input.keyboard_pressed(KEY_W));
    input.update();
    input.dispatch_keyboard(KEY_W, ElementState::Pressed);
    assert!(input.keyboard_pressed(KEY_W));
    assert!(!input.keyboard_just_pressed(KEY_W));
}

#[test]
fn release_allows_a_fresh_press() {
    let mut input = Input::new();
    input.dispatch_keyboard(KEY_W, ElementState::Pressed);
    input.update();
    input.dispatch_keyboard(KEY_W, ElementState::Released);
    assert!(input.keyboard_released(KEY_W));
    input.dispatch_keyboard(KEY_W, ElementState::Pressed);
    assert!(input.keyboard_just_pressed(KEY_W));
}

#[test]
fn release_of_an_unknown_key_is_recorded_as_released() {
    let mut input = Input::new();
    input.dispatch_keyboard(77, ElementState::Released);
    assert!(input.keyboard_released(77));
    input.update();
    assert!(input.keyboard_released(77));
}

#[test]
fn mouse_buttons_decay_like_keys() {
    let mut input = Input::new();
    input.dispatch_mouse_buttons(MOUSE_LEFT, ElementState::Pressed);
    assert!(input.mouse_just_pressed(MOUSE_LEFT));
    assert!(input.mouse_released(MOUSE_RIGHT));
    input.update();
    assert!(input.mouse_pressed(MOUSE_LEFT));
    assert!(!input.mouse_just_pressed(MOUSE_LEFT));
    input.dispatch_mouse_buttons(MOUSE_LEFT, ElementState::Released);
    assert!(input.mouse_released(MOUSE_LEFT));
}

#[test]
fn keys_and_buttons_are_separate() {
    let mut input = Input::new();
    input.dispatch_keyboard(0, ElementState::Pressed);
    assert!(input.mouse_released(0));
    input.dispatch_mouse_buttons(1, ElementState::Pressed);
    assert!(input.keyboard_released(1));
}

#[test]
fn mouse_motion_accumulates_and_is_dropped_by_refresh() {
    let mut input = Input::new();
    input.dispatch_mouse_motion(1500, -250);
    input.dispatch_mouse_motion(500, -750);
    assert_eq!(input.delta_xpos(), 2000);
    assert_eq!(input.delta_ypos(), -1000);
    input.update();
    assert_eq!(input.delta_xpos(), 0);
    assert_eq!(input.delta_ypos(), 0);
}

#[test]
fn mouse_motion_saturates() {
    let mut input = Input::new();
    input.dispatch_mouse_motion(i64::MAX, i64::MIN);
    input.dispatch_mouse_motion(1, -1);
    assert_eq!(input.delta_xpos(), i64::MAX);
    assert_eq!(input.delta_ypos(), i64::MIN);
    input.dispatch_mouse_motion(-10, 10);
    assert_eq!(input.delta_xpos(), i64::MAX - 10);
    assert_eq!(input.delta_ypos(), i64::MIN + 10);
}
