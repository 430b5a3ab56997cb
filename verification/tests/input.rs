use psionic::demo::movement_direction;
use psionic::input::{
    InputManager, InputMap, KeyboardKeyMapping, KeyboardKeyState, MouseButtonMapping, MouseButtonState,
};

const W: u32 = 1;
const S: u32 = 2;
const A: u32 = 3;
const D: u32 = 4;
const LEFT: u32 = 0;

fn wasd_map() -> InputMap {
    InputMap {
        keyboard_key_mappings: vec![
            KeyboardKeyMapping { name: "W".to_string(), key_code: W },
            KeyboardKeyMapping { name: "S".to_string(), key_code: S },
            KeyboardKeyMapping { name: "A".to_string(), key_code: A },
            KeyboardKeyMapping { name: "D".to_string(), key_code: D },
        ],
        mouse_button_mappings: vec![MouseButtonMapping { name: "Left".to_string(), mouse_button: LEFT }],
    }
}

#[test]
fn loaded_keys_start_released() {
    let mut im = InputManager::new();
    im.load_input_map(&wasd_map());
    let w = *im.get_keyboard_key_state(W).unwrap();
    assert_eq!(w, KeyboardKeyState { key_code: W, is_down: false, down_this_frame: false, up_this_frame: false });
    assert!(im.get_keyboard_key_state(99).is_none());
    let left = *im.get_mouse_button_state(LEFT).unwrap();
    assert_eq!(left, MouseButtonState { mouse_button: LEFT, is_down: false, down_this_frame: false, up_this_frame: false });
    assert_eq!(im.get_mouse_position_state().position, (0, 0));
    assert!(!im.get_mouse_position_state().outside_window);
}

#[test]
fn key_events_last_until_the_frame_ends() {
    let mut im = InputManager::new();
    im.load_input_map(&wasd_map());
    im.update_keyboard_key_state(&W, true);
    let w = *im.get_keyboard_key_state(W).unwrap();
    assert!(w.is_down && w.down_this_frame && !w.up_this_frame);
    im.reset_frame_states();
    let w = *im.get_keyboard_key_state(W).unwrap();
    assert!(w.is_down && !w.down_this_frame && !w.up_this_frame);
    im.update_keyboard_key_state(&W, false);
    let w = *im.get_keyboard_key_state(W).unwrap();
    assert!(!w.is_down && !w.down_this_frame && w.up_this_frame);
    im.reset_frame_states();
    im.reset_frame_states();
    let w = *im.get_keyboard_key_state(W).unwrap();
    assert_eq!(w, KeyboardKeyState { key_code: W, is_down: false, down_this_frame: false, up_this_frame: false });
}

#[test]
fn press_and_release_in_one_frame_records_both_edges() {
    let mut im = InputManager::new();
    im.load_input_map(&wasd_map());
    im.update_keyboard_key_state(&A, true);
    im.update_keyboard_key_state(&A, false);
    let a = *im.get_keyboard_key_state(A).unwrap();
    assert!(!a.is_down && a.down_this_frame && a.up_this_frame);
}

#[test]
fn untracked_keys_are_ignored() {
    let mut im = InputManager::new();
    im.load_input_map(&wasd_map());
    im.update_keyboard_key_state(&77, true);
    assert!(im.get_keyboard_key_state(77).is_none());
    im.update_mouse_button_state(5, true);
    assert!(im.get_mouse_button_state(5).is_none());
}

#[test]
fn mouse_buttons_and_cursor() {
    let mut im = InputManager::new();
    im.load_input_map(&wasd_map());
    im.update_mouse_button_state(LEFT, true);
    let b = *im.get_mouse_button_state(LEFT).unwrap();
    assert!(b.is_down && b.down_this_frame);
    im.reset_frame_states();
    let b = *im.get_mouse_button_state(LEFT).unwrap();
    assert!(b.is_down && !b.down_this_frame && !b.up_this_frame);
    im.update_mouse_position((12.5f32.to_bits(), 3.0f32.to_bits()));
    im.update_mouse_outside_window(true);
    let c = *im.get_mouse_position_state();
    assert_eq!(c.position, (12.5f32.to_bits(), 3.0f32.to_bits()));
    assert!(c.outside_window);
}

#[test]
fn reloading_the_map_forgets_old_keys_and_keeps_buttons() {
    let mut im = InputManager::new();
    im.load_input_map(&wasd_map());
    im.update_keyboard_key_state(&W, true);
    im.update_mouse_button_state(LEFT, true);
    let other = InputMap {
        keyboard_key_mappings: vec![KeyboardKeyMapping { name: "Space".to_string(), key_code: 50 }],
        mouse_button_mappings: vec![MouseButtonMapping { name: "Right".to_string(), mouse_button: 1 }],
    };
    im.load_input_map(&other);
    assert!(im.get_keyboard_key_state(W).is_none());
    assert!(!im.get_keyboard_key_state(50).unwrap().is_down);
    assert!(im.get_mouse_button_state(LEFT).unwrap().is_down);
    assert!(!im.get_mouse_button_state(1).unwrap().is_down);
}

#[test]
fn movement_follows_held_keys() {
    let mut im = InputManager::new();
    im.load_input_map(&wasd_map());
    assert_eq!(movement_direction(&im, W, S, A, D), (0, 0));
    im.update_keyboard_key_state(&W, true);
    assert_eq!(movement_direction(&im, W, S, A, D), (0, 1));
    im.update_keyboard_key_state(&S, true);
    assert_eq!(movement_direction(&im, W, S, A, D), (0, -1));
    im.update_keyboard_key_state(&A, true);
    assert_eq!(movement_direction(&im, W, S, A, D), (-1, -1));
    im.update_keyboard_key_state(&D, true);
    assert_eq!(movement_direction(&im, W, S, A, D), (1, -1));
    im.update_keyboard_key_state(&S, false);
    im.update_keyboard_key_state(&D, false);
    assert_eq!(movement_direction(&im, W, S, A, D), (-1, 1));
}

#[test]
fn fresh_key_states_are_released() {
    let k = KeyboardKeyState::new(&9);
    assert_eq!(k, KeyboardKeyState { key_code: 9, is_down: false, down_this_frame: false, up_this_frame: false });
    let b = MouseButtonState::new(&2);
    assert_eq!(b, MouseButtonState { mouse_button: 2, is_down: false, down_this_frame: false, up_this_frame: false });
}
