use p9n_interface_2024::launcher::Robot1Dispatcher;
use p9n_interface_2024::p9n_interface::ControlSnapshot;
use p9n_interface_2024::p9n_interface::PlaystationInterface;
use p9n_interface_2024::records::OutCommand;

fn pad(buttons: Vec<i32>, axes: Vec<i8>) -> PlaystationInterface {
    PlaystationInterface::new(ControlSnapshot { buttons, axes })
}

fn idle() -> PlaystationInterface {
    pad(vec![0; 11], vec![0; 8])
}

// r1 at button index 5, triangle at 2, l1 at 4, r2 at 7.
fn r1_and_triangle() -> PlaystationInterface {
    pad(vec![0, 0, 1, 0, 0, 1, 0, 0, 0, 0, 0], vec![0; 8])
}

#[test]
fn launch_sequence_steps_in_order_with_delays() {
    // Triggered once: open the hatch servo, wait, fire the valve, wait,
    // close it, re-home the servo — in that order, with those delays.
    let mut d = Robot1Dispatcher::new();
    let out = d.step(&r1_and_triangle());
    assert_eq!(out.len(), 4);

    match out[0].cmd {
        OutCommand::Smd(m) => {
            assert_eq!((m.address, m.port, m.mode, m.angle), (6, 1, 1, 180));
        }
        _ => panic!("expected the hatch servo record first"),
    }
    assert_eq!(out[0].delay_ms, 1000);

    match out[1].cmd {
        OutCommand::Sd(m) => assert_eq!((m.address, m.port, m.power1), (0, 1, 1000)),
        _ => panic!("expected the valve record second"),
    }
    assert_eq!(out[1].delay_ms, 500);

    match out[2].cmd {
        OutCommand::Sd(m) => assert_eq!((m.address, m.port, m.power1), (0, 1, 0)),
        _ => panic!("expected the valve-off record third"),
    }
    assert_eq!(out[2].delay_ms, 0);

    match out[3].cmd {
        OutCommand::Smd(m) => {
            assert_eq!((m.address, m.port, m.mode, m.angle), (6, 1, 1, 90));
        }
        _ => panic!("expected the servo re-home record last"),
    }
    assert_eq!(out[3].delay_ms, 0);
}

#[test]
fn launch_sequence_fires_once_per_press() {
    // The latch keeps a held conjunction from re-triggering the sequence:
    // one press, however many cycles, fires exactly one sequence.
    let mut d = Robot1Dispatcher::new();
    assert_eq!(d.step(&r1_and_triangle()).len(), 4);
    assert!(d.step(&r1_and_triangle()).is_empty());
    assert!(d.step(&r1_and_triangle()).is_empty());
    // Releasing rearms it.
    assert!(d.step(&idle()).is_empty());
    assert_eq!(d.step(&r1_and_triangle()).len(), 4);
}

#[test]
fn load_sequence_steps_in_order_with_delays() {
    let mut d = Robot1Dispatcher::new();
    let l1_and_triangle = pad(vec![0, 0, 1, 0, 1, 0, 0, 0, 0, 0, 0], vec![0; 8]);
    let out = d.step(&l1_and_triangle);
    assert_eq!(out.len(), 3);
    match out[0].cmd {
        OutCommand::Smd(m) => assert_eq!(m.angle, 90),
        _ => panic!("expected the servo record first"),
    }
    assert_eq!(out[0].delay_ms, 0);
    match out[1].cmd {
        OutCommand::Sd(m) => {
            assert_eq!((m.address, m.power1, m.power2), (1, 1000, 1000));
        }
        _ => panic!("expected the loader record second"),
    }
    assert_eq!(out[1].delay_ms, 3000);
    match out[2].cmd {
        OutCommand::Sd(m) => assert_eq!((m.address, m.power1, m.power2), (1, 0, 0)),
        _ => panic!("expected the loader-off record last"),
    }
    assert_eq!(out[2].delay_ms, 0);
}

#[test]
fn second_launch_sequence_pulses_the_servo_first() {
    let mut d = Robot1Dispatcher::new();
    let r2_and_triangle = pad(vec![0, 0, 1, 0, 0, 0, 0, 1, 0, 0, 0], vec![0; 8]);
    let out = d.step(&r2_and_triangle);
    assert_eq!(out.len(), 4);
    let delays: Vec<u64> = out.iter().map(|s| s.delay_ms).collect();
    assert_eq!(delays, vec![400, 600, 500, 0]);
    match (out[0].cmd, out[1].cmd) {
        (OutCommand::Smd(a), OutCommand::Smd(b)) => {
            assert_eq!(a.angle, 180);
            assert_eq!(b.angle, 90);
        }
        _ => panic!("expected the two servo records first"),
    }
}

#[test]
fn trigger_without_triangle_does_nothing() {
    let mut d = Robot1Dispatcher::new();
    let r1_only = pad(vec![0, 0, 0, 0, 0, 1, 0, 0, 0, 0, 0], vec![0; 8]);
    assert!(d.step(&r1_only).is_empty());
}

#[test]
fn pose_shortcuts_publish_once_per_press() {
    let mut d = Robot1Dispatcher::new();
    // Start at button index 9.
    let start = pad(vec![0, 0, 0, 0, 0, 0, 0, 0, 0, 1, 0], vec![0; 8]);
    let out = d.step(&start);
    assert_eq!(out.len(), 1);
    match out[0].cmd {
        OutCommand::Pose(g) => assert_eq!((g.x, g.y, g.z), (1, -1, 0)),
        _ => panic!("expected a pose goal"),
    }
    assert!(d.step(&start).is_empty());
}
