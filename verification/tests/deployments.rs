use p9n_interface_2024::p9n_interface::ControlSnapshot;
use p9n_interface_2024::p9n_interface::PlaystationInterface;
use p9n_interface_2024::records::OutCommand;
use p9n_interface_2024::robot2_1::Robot21Dispatcher;
use p9n_interface_2024::robot2_2::Robot22Dispatcher;
use p9n_interface_2024::robot2_3::Robot23Dispatcher;
use p9n_interface_2024::robot2_4::Robot24Dispatcher;

fn pad(buttons: Vec<i32>, axes: Vec<i8>) -> PlaystationInterface {
    PlaystationInterface::new(ControlSnapshot { buttons, axes })
}

fn idle() -> PlaystationInterface {
    pad(vec![0; 11], vec![0; 8])
}

fn dpad_left() -> PlaystationInterface {
    pad(vec![0; 11], vec![0, 0, 0, 0, 0, 0, 1, 0])
}

fn dpad_right() -> PlaystationInterface {
    pad(vec![0; 11], vec![0, 0, 0, 0, 0, 0, -1, 0])
}

fn point21(cmd: OutCommand) -> p9n_interface_2024::records::PointDrive {
    match cmd {
        OutCommand::Point21(m) => m,
        _ => panic!("expected a drive record for the gripper robot"),
    }
}

fn point23(cmd: OutCommand) -> p9n_interface_2024::records::PointDrive {
    match cmd {
        OutCommand::Point23(m) => m,
        _ => panic!("expected a drive record for the lift robot"),
    }
}

fn point24(cmd: OutCommand) -> p9n_interface_2024::records::PointDrive {
    match cmd {
        OutCommand::Point24(m) => m,
        _ => panic!("expected a drive record for the collector robot"),
    }
}

#[test]
fn gripper_servo_swings_between_the_two_pulse_widths() {
    let mut d = Robot21Dispatcher::new();
    let out = d.step(&dpad_left());
    assert_eq!(out.len(), 1);
    let m = point21(out[0].cmd);
    assert_eq!(m.md2, 1);
    assert_eq!(m.md3, 50);  // 45 degrees
    assert!(d.step(&dpad_left()).is_empty());
    let out = d.step(&idle());
    assert_eq!(out.len(), 1);
    assert_eq!(point21(out[0].cmd).md3, 100);  // 135 degrees
}

#[test]
fn gripper_flipflop_swings_between_full_power_and_rest() {
    let mut d = Robot21Dispatcher::new();
    let triangle = pad(vec![0, 0, 1], vec![0; 8]);
    let out = d.step(&triangle);
    assert_eq!(point21(out[0].cmd).md5, 127);
    assert!(d.step(&idle()).is_empty());
    let out = d.step(&triangle);
    assert_eq!(point21(out[0].cmd).md5, 0);
}

#[test]
fn arm_robot_absolute_policy_is_the_default() {
    let mut d = Robot22Dispatcher::new();
    let l2 = pad(vec![0, 0, 0, 0, 0, 0, 1], vec![0; 8]);
    let out = d.laborer(&l2);
    assert_eq!(out.len(), 1);
    match out[0].cmd {
        OutCommand::Point22(m) => assert_eq!(m.md0, 125),
        _ => panic!("expected a drive record for the arm robot"),
    }
    assert_eq!(d.arms_angle0, 125);
    // Held: the absolute policy keeps publishing the held extreme.
    let out = d.laborer(&l2);
    assert_eq!(out.len(), 1);
    // Release: one publish of the release extreme.
    let out = d.laborer(&idle());
    assert_eq!(out.len(), 1);
    match out[0].cmd {
        OutCommand::Point22(m) => assert_eq!(m.md0, 75),
        _ => panic!("expected a drive record for the arm robot"),
    }
    assert_eq!(d.arms_angle0, 75);
    assert!(d.laborer(&idle()).is_empty());
}

#[test]
fn arm_robot_mirrored_channel_uses_the_complement() {
    let mut d = Robot22Dispatcher::new();
    let l1 = pad(vec![0, 0, 0, 0, 1], vec![0; 8]);
    let out = d.laborer(&l1);
    assert_eq!(out.len(), 1);
    match out[0].cmd {
        OutCommand::Point22(m) => assert_eq!(m.md1, 25),  // 150 - 125
        _ => panic!("expected a drive record for the arm robot"),
    }
    let out = d.laborer(&idle());
    match out[0].cmd {
        OutCommand::Point22(m) => assert_eq!(m.md1, 75),  // 150 - 75
        _ => panic!("expected a drive record for the arm robot"),
    }
}

#[test]
fn arm_robot_circle_switches_to_the_relative_policy() {
    let mut d = Robot22Dispatcher::new();
    let circle = pad(vec![0, 1], vec![0; 8]);
    assert!(d.laborer(&circle).is_empty());
    assert_eq!(d.arm_mode, 0);
    // Now l2 nudges the accumulator from its current value, +1 per cycle.
    let l2 = pad(vec![0, 0, 0, 0, 0, 0, 1], vec![0; 8]);
    let out = d.laborer(&l2);
    assert_eq!(out.len(), 1);
    match out[0].cmd {
        OutCommand::Point22(m) => assert_eq!(m.md0, 26),
        _ => panic!("expected a drive record for the arm robot"),
    }
    let out = d.laborer(&l2);
    match out[0].cmd {
        OutCommand::Point22(m) => assert_eq!(m.md0, 27),
        _ => panic!("expected a drive record for the arm robot"),
    }
    // Release: a zero step that re-publishes the unchanged value.
    let out = d.laborer(&idle());
    assert_eq!(out.len(), 1);
    match out[0].cmd {
        OutCommand::Point22(m) => assert_eq!(m.md0, 27),
        _ => panic!("expected a drive record for the arm robot"),
    }
    // Square switches back to the absolute policy.
    let square = pad(vec![0, 0, 0, 1], vec![0; 8]);
    assert!(d.laborer(&square).is_empty());
    assert_eq!(d.arm_mode, 1);
}

#[test]
fn arm_robot_relative_policy_reverses_with_cross() {
    let mut d = Robot22Dispatcher::new();
    d.arms_angle0 = 60;
    let circle = pad(vec![0, 1], vec![0; 8]);
    d.laborer(&circle);
    let l2_cross = pad(vec![1, 0, 0, 0, 0, 0, 1], vec![0; 8]);
    let out = d.laborer(&l2_cross);
    match out[0].cmd {
        OutCommand::Point22(m) => assert_eq!(m.md0, 59),
        _ => panic!("expected a drive record for the arm robot"),
    }
    assert_eq!(d.arms_angle0, 59);
}

#[test]
fn lift_robot_nudges_while_held_and_parks_on_right_release() {
    let mut d = Robot23Dispatcher::new();
    // Left held: +1 per cycle from the lower bound, published each cycle.
    let out = d.step(&dpad_left());
    assert_eq!(out.len(), 1);
    assert_eq!(point23(out[0].cmd).md3, 26);
    let out = d.step(&dpad_left());
    assert_eq!(point23(out[0].cmd).md3, 27);
    // Release: the record is re-published unchanged.
    let out = d.step(&idle());
    assert_eq!(out.len(), 1);
    assert_eq!(point23(out[0].cmd).md3, 27);
    // Right held: -1 per cycle.
    let out = d.step(&dpad_right());
    assert_eq!(out.len(), 1);
    assert_eq!(point23(out[0].cmd).md3, 26);
    assert_eq!(d.arm_angle, 26);
    // Right release parks the channel at the fixed low value; the left
    // slot was latched by the held-right branch, so its release-edge also
    // re-publishes once first.
    let out = d.step(&idle());
    assert_eq!(out.len(), 2);
    assert_eq!(point23(out[1].cmd).md3, 4);
}

#[test]
fn lift_robot_up_targets_pick_by_the_modifier() {
    let mut d = Robot23Dispatcher::new();
    let up = pad(vec![0; 11], vec![0, 0, 0, 0, 0, 0, 0, 1]);
    let out = d.step(&up);
    assert_eq!(out.len(), 1);
    let m = point23(out[0].cmd);
    assert_eq!((m.md2, m.md3), (25, 40));
    d.step(&idle());

    let up_cross = pad(vec![1; 1], vec![0, 0, 0, 0, 0, 0, 0, 1]);
    let out = d.step(&up_cross);
    let m = point23(out[0].cmd);
    assert_eq!((m.md2, m.md3), (125, 120));
}

#[test]
fn lift_robot_triggers_toggle_and_reset() {
    let mut d = Robot23Dispatcher::new();
    let l2 = pad(vec![0, 0, 0, 0, 0, 0, 1], vec![0; 8]);
    let out = d.step(&l2);
    assert_eq!(out.len(), 1);
    assert_eq!(point23(out[0].cmd).md4, 101);
    let l2_cross = pad(vec![1, 0, 0, 0, 0, 0, 1], vec![0; 8]);
    let out = d.step(&l2_cross);
    assert_eq!(point23(out[0].cmd).md4, -101);
    let out = d.step(&idle());
    assert_eq!(out.len(), 1);
    assert_eq!(point23(out[0].cmd).md4, 0);
}

#[test]
fn collector_rehomes_when_neither_side_is_held() {
    let mut d = Robot24Dispatcher::new();
    // Nothing held: both servo channels re-home to the middle each cycle.
    let out = d.step(&idle());
    assert_eq!(out.len(), 2);
    assert_eq!(point24(out[0].cmd).md3, 80);
    assert_eq!(point24(out[1].cmd).md1, 80);
    let out = d.step(&idle());
    assert_eq!(out.len(), 2);
}

#[test]
fn collector_pins_the_left_channel_while_latched() {
    let mut d = Robot24Dispatcher::new();
    let l2 = pad(vec![0, 0, 0, 0, 0, 0, 1], vec![0; 8]);
    let out = d.step(&l2);
    // The press pins channel 3 high; only the right pair re-homes.
    assert_eq!(out.len(), 2);
    assert_eq!(point24(out[0].cmd).md3, 125);
    assert_eq!(point24(out[1].cmd).md1, 80);
    // Release: the latch clears and the channel re-homes again.
    let out = d.step(&idle());
    assert_eq!(out.len(), 2);
    assert_eq!(point24(out[0].cmd).md3, 80);
}

#[test]
fn collector_up_edge_publishes_once() {
    let mut d = Robot24Dispatcher::new();
    let up = pad(vec![0; 11], vec![0, 0, 0, 0, 0, 0, 0, 1]);
    let out = d.step(&up);
    assert_eq!(out.len(), 3);
    assert_eq!(point24(out[0].cmd).md0, 125);
    // Held: the edge is latched, only the re-home publishes remain.
    let out = d.step(&up);
    assert_eq!(out.len(), 2);
}
