use p9n_interface_2024::p9n_interface::ControlSnapshot;
use p9n_interface_2024::p9n_interface::PlaystationInterface;

fn pad(buttons: Vec<i32>, axes: Vec<i8>) -> PlaystationInterface {
    PlaystationInterface::new(ControlSnapshot { buttons, axes })
}

#[test]
fn buttons_read_their_slots() {
    let p = pad(vec![1, 0, 1, 0, 1, 0, 1, 0, 1, 0, 1], vec![0; 8]);
    assert!(p.pressed_cross());
    assert!(!p.pressed_circle());
    assert!(p.pressed_triangle());
    assert!(!p.pressed_square());
    assert!(p.pressed_l1());
    assert!(!p.pressed_r1());
    assert!(p.pressed_l2());
    assert!(!p.pressed_r2());
    assert!(p.pressed_select());
    assert!(!p.pressed_start());
    assert!(p.pressed_ps());
}

#[test]
fn short_snapshot_degrades_to_not_pressed() {
    // Only the first two button slots delivered: everything beyond reads
    // as released instead of failing the cycle.
    let p = pad(vec![1, 1], vec![]);
    assert!(p.pressed_cross());
    assert!(p.pressed_circle());
    assert!(!p.pressed_triangle());
    assert!(!p.pressed_select());
    assert!(!p.pressed_start());
    assert!(!p.pressed_dpad_left());
    assert!(!p.pressed_dpad_up());
}

#[test]
fn empty_snapshot_presses_nothing() {
    let p = pad(vec![], vec![]);
    assert!(!p.pressed_cross());
    assert!(!p.pressed_select());
    assert!(!p.pressed_dpad_down());
    assert!(!p.pressed_dpad_right());
}

#[test]
fn dpad_uses_strict_sign() {
    // Positive x is left, negative x is right; same for y up/down.
    let p = pad(vec![0; 11], vec![0, 0, 0, 0, 0, 0, 1, -1]);
    assert!(p.pressed_dpad_left());
    assert!(!p.pressed_dpad_right());
    assert!(!p.pressed_dpad_up());
    assert!(p.pressed_dpad_down());

    let p = pad(vec![0; 11], vec![0, 0, 0, 0, 0, 0, -1, 1]);
    assert!(!p.pressed_dpad_left());
    assert!(p.pressed_dpad_right());
    assert!(p.pressed_dpad_up());
    assert!(!p.pressed_dpad_down());
}

#[test]
fn axis_at_zero_presses_neither_direction() {
    let p = pad(vec![0; 11], vec![0; 8]);
    assert!(!p.pressed_dpad_left());
    assert!(!p.pressed_dpad_right());
    assert!(!p.pressed_dpad_up());
    assert!(!p.pressed_dpad_down());
}

#[test]
fn set_joy_msg_replaces_the_snapshot() {
    let mut p = pad(vec![0; 11], vec![0; 8]);
    assert!(!p.pressed_cross());
    p.set_joy_msg(ControlSnapshot { buttons: vec![1], axes: vec![] });
    assert!(p.pressed_cross());
}

#[test]
fn read_pad_matches_the_named_accessors() {
    let p = pad(vec![0, 1, 0, 0, 0, 0, 0, 1, 0, 1, 0], vec![0, 0, 0, 0, 0, 0, 1, 0]);
    let r = p.read_pad();
    assert_eq!(r.circle, p.pressed_circle());
    assert_eq!(r.r2, p.pressed_r2());
    assert_eq!(r.start, p.pressed_start());
    assert_eq!(r.d_pad_left, p.pressed_dpad_left());
    assert_eq!(r.d_pad_right, p.pressed_dpad_right());
    assert!(r.circle && r.r2 && r.start && r.d_pad_left);
    assert!(!r.cross && !r.select && !r.d_pad_right);
}
