use p9n_interface_2024::arm::arm_mode0;
use p9n_interface_2024::arm::arm_mode1;
use p9n_interface_2024::arm::calc_degree_to_pulsewidth;
use p9n_interface_2024::arm::set_arm_angle;
use p9n_interface_2024::arm::ChannelAccumulator;
use p9n_interface_2024::p9n_interface::ControlSnapshot;
use p9n_interface_2024::p9n_interface::PlaystationInterface;
use p9n_interface_2024::ps5_dualsense::STATE_L2;

#[test]
fn accumulator_pinned_at_max() {
    // At the upper bound a further +1 returns the bound, unchanged.
    let mut a = ChannelAccumulator { value: 125 };
    assert_eq!(a.apply(1), 125);
    assert_eq!(a.value, 125);
}

#[test]
fn accumulator_pinned_repeatedly() {
    let mut a = ChannelAccumulator { value: 120 };
    for _ in 0..20 {
        a.apply(1);
    }
    assert_eq!(a.value, 125);
    for _ in 0..200 {
        a.apply(-1);
    }
    assert_eq!(a.value, 25);
    assert_eq!(a.apply(-1), 25);
}

#[test]
fn accumulator_zero_delta_republishes_current_value() {
    let mut a = ChannelAccumulator { value: 60 };
    assert_eq!(a.apply(0), 60);
    assert_eq!(a.value, 60);
}

#[test]
fn accumulator_starts_at_lower_bound() {
    let a = ChannelAccumulator::new();
    assert_eq!(a.value, 25);
}

#[test]
fn set_arm_angle_clamps_and_stores() {
    let mut angle: i32 = 25;
    assert_eq!(set_arm_angle(&mut angle, 1), 26);
    assert_eq!(angle, 26);
    assert_eq!(set_arm_angle(&mut angle, 1000), 125);
    assert_eq!(angle, 125);
    assert_eq!(set_arm_angle(&mut angle, -1000), 25);
    assert_eq!(angle, 25);
    assert_eq!(set_arm_angle(&mut angle, 0), 25);
}

#[test]
fn degree_conversion_exact_values() {
    assert_eq!(calc_degree_to_pulsewidth(45), 50);
    assert_eq!(calc_degree_to_pulsewidth(135), 100);
    assert_eq!(calc_degree_to_pulsewidth(0), 25);
    assert_eq!(calc_degree_to_pulsewidth(180), 125);
    assert_eq!(calc_degree_to_pulsewidth(414), 255);
}

fn pad_with_l2_cross(l2: bool, cross: bool) -> PlaystationInterface {
    let mut buttons = vec![0i32; 11];
    if l2 {
        buttons[6] = 1;
    }
    if cross {
        buttons[0] = 1;
    }
    PlaystationInterface::new(ControlSnapshot { buttons, axes: vec![0; 8] })
}

#[test]
fn relative_policy_steps_while_held_and_zeroes_on_release() {
    let mut st = vec![false; 15];
    // Held without the reverse modifier: +1 each cycle.
    let p = pad_with_l2_cross(true, false);
    assert_eq!(arm_mode0(&p, p.pressed_l2(), &mut st, STATE_L2), 1);
    assert!(st[STATE_L2]);
    assert_eq!(arm_mode0(&p, p.pressed_l2(), &mut st, STATE_L2), 1);
    // Release edge: one zero step (a "re-publish current value" update).
    let p = pad_with_l2_cross(false, false);
    assert_eq!(arm_mode0(&p, p.pressed_l2(), &mut st, STATE_L2), 0);
    assert!(!st[STATE_L2]);
    // Idle: no update at all.
    assert_eq!(arm_mode0(&p, p.pressed_l2(), &mut st, STATE_L2), -2);
}

#[test]
fn relative_policy_reverses_with_the_modifier() {
    let mut st = vec![false; 15];
    let p = pad_with_l2_cross(true, true);
    assert_eq!(arm_mode0(&p, p.pressed_l2(), &mut st, STATE_L2), -1);
}

#[test]
fn absolute_policy_jumps_between_extremes() {
    let mut st = vec![false; 15];
    assert_eq!(arm_mode1(true, &mut st, STATE_L2), 125);
    assert!(st[STATE_L2]);
    assert_eq!(arm_mode1(true, &mut st, STATE_L2), 125);
    assert_eq!(arm_mode1(false, &mut st, STATE_L2), 75);
    assert!(!st[STATE_L2]);
    assert_eq!(arm_mode1(false, &mut st, STATE_L2), -2);
}
