use vrc_keyboard::input::{Axis, InputHandler, InputState};
use vrc_keyboard::ui::{apply_keys, get_interact_pos, next_started, start_requested, KeysDown};

fn none() -> KeysDown {
    KeysDown { arrow_right: false, arrow_left: false, w: false, a: false, s: false, d: false }
}

#[test]
fn keys_drive_their_axes() {
    let mut h = InputHandler::default();
    apply_keys(&mut h, &KeysDown { w: true, d: true, arrow_left: true, ..none() });
    assert_eq!(
        h.state(),
        InputState { vertical: Axis::Positive, horizontal: Axis::Positive, looking: Axis::Negative }
    );
}

#[test]
fn later_key_of_a_pair_wins() {
    let mut h = InputHandler::default();
    let all = KeysDown { arrow_right: true, arrow_left: true, w: true, a: true, s: true, d: true };
    apply_keys(&mut h, &all);
    assert_eq!(
        h.state(),
        InputState { vertical: Axis::Negative, horizontal: Axis::Positive, looking: Axis::Negative }
    );
}

#[test]
fn no_keys_keep_the_state() {
    let mut h = InputHandler::default();
    h.mov_left();
    h.look_right();
    let before = h.state();
    apply_keys(&mut h, &none());
    assert_eq!(h.state(), before);
}

#[test]
fn applying_keys_twice_is_applying_once() {
    let keys = KeysDown { a: true, s: true, ..none() };
    let mut once = InputHandler::default();
    apply_keys(&mut once, &keys);
    let mut twice = InputHandler::default();
    apply_keys(&mut twice, &keys);
    apply_keys(&mut twice, &keys);
    assert_eq!(once.state(), twice.state());
}

#[test]
fn pointer_counts_only_while_down() {
    assert_eq!(get_interact_pos(true, Some((3, 4))), Some((3, 4)));
    assert_eq!(get_interact_pos(false, Some((3, 4))), None);
    assert_eq!(get_interact_pos::<(i32, i32)>(true, None), None);
}

#[test]
fn start_button() {
    assert!(start_requested(true, false));
    assert!(!start_requested(true, true));
    assert!(!start_requested(false, false));
    assert!(!start_requested(false, true));
}

#[test]
fn started_flag_after_a_frame() {
    assert!(next_started(false, true, true));
    assert!(!next_started(false, true, false));
    assert!(!next_started(false, false, true));
    assert!(next_started(true, true, false));
    assert!(next_started(true, false, false));
}
