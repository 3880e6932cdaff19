use p9n_interface_2024::edge::edge;
use p9n_interface_2024::edge::EdgeEvent;
use p9n_interface_2024::mux::MuxDispatcher;
use p9n_interface_2024::p9n_interface::ControlSnapshot;
use p9n_interface_2024::p9n_interface::PlaystationInterface;
use p9n_interface_2024::records::OutCommand;
use p9n_interface_2024::target::TargetIndex;

fn pad(buttons: Vec<i32>, axes: Vec<i8>) -> PlaystationInterface {
    PlaystationInterface::new(ControlSnapshot { buttons, axes })
}

fn idle() -> PlaystationInterface {
    pad(vec![0; 11], vec![0; 8])
}

#[test]
fn edge_classification() {
    assert_eq!(edge(false, true), EdgeEvent::PressEdge);
    assert_eq!(edge(true, false), EdgeEvent::ReleaseEdge);
    assert_eq!(edge(false, false), EdgeEvent::Unchanged);
    assert_eq!(edge(true, true), EdgeEvent::Unchanged);
}

#[test]
fn identical_snapshots_never_fire_two_press_edges() {
    // A press-edge overwrites the history with "pressed"; the identical
    // next frame classifies as no-change, never as a second press-edge.
    let first = edge(false, true);
    assert_eq!(first, EdgeEvent::PressEdge);
    let second = edge(true, true);
    assert_eq!(second, EdgeEvent::Unchanged);
    // And after a press, any frame is no-change or release, never a press.
    assert_ne!(edge(true, true), EdgeEvent::PressEdge);
    assert_ne!(edge(true, false), EdgeEvent::PressEdge);
}

#[test]
fn target_index_wraps_after_n_advances() {
    let mut t = TargetIndex::new(5);
    let mut seen = Vec::new();
    for _ in 0..5 {
        seen.push(t.index);
        t.advance();
    }
    assert_eq!(seen, vec![0, 1, 2, 3, 4]);
    assert_eq!(t.index, 0);
}

#[test]
fn select_advances_on_edge_and_stays_while_held() {
    // SELECT at button index 8: pressed on cycle 1, released on cycle 2,
    // with five subsystems configured. The index advances once, on the
    // edge, and stays put afterwards.
    let mut d = MuxDispatcher::new();
    assert_eq!(d.robot.index, 0);
    let press = pad(vec![0, 0, 0, 0, 0, 0, 0, 0, 1, 0], vec![0; 8]);
    let out = d.step(&press);
    assert_eq!(d.robot.index, 1);
    assert!(out.is_empty());
    // Held: no second advance while the latch is set.
    let out = d.step(&press);
    assert_eq!(d.robot.index, 1);
    assert!(out.is_empty());
    // Released: the latch rearms, the index stays 1.
    let out = d.step(&idle());
    assert_eq!(d.robot.index, 1);
    assert!(out.is_empty());
}

#[test]
fn select_cycles_back_to_start_after_five_presses() {
    let mut d = MuxDispatcher::new();
    let press = pad(vec![0, 0, 0, 0, 0, 0, 0, 0, 1, 0], vec![0; 8]);
    for _ in 0..5 {
        d.step(&press);
        d.step(&idle());
    }
    assert_eq!(d.robot.index, 0);
}

#[test]
fn toggle_idiom_publishes_exactly_twice_per_gesture() {
    // D-pad right on subsystem 0: press, hold many cycles, release.
    // Exactly two publishes: full power on the press-edge, zero on the
    // release-edge, however long the control is held.
    let mut d = MuxDispatcher::new();
    let held = pad(vec![0; 11], vec![0, 0, 0, 0, 0, 0, -1, 0]);
    let mut publishes = Vec::new();
    publishes.extend(d.step(&held));
    for _ in 0..7 {
        publishes.extend(d.step(&held));
    }
    publishes.extend(d.step(&idle()));
    assert_eq!(publishes.len(), 2);
    match publishes[0].cmd {
        OutCommand::Sd(sd) => {
            assert_eq!(sd.address, 0);
            assert_eq!(sd.port, 1);
            assert_eq!(sd.power1, 1000);
        }
        _ => panic!("expected a solenoid record"),
    }
    match publishes[1].cmd {
        OutCommand::Sd(sd) => {
            assert_eq!(sd.port, 1);
            assert_eq!(sd.power1, 0);
        }
        _ => panic!("expected a solenoid record"),
    }
}

#[test]
fn flipflop_idiom_alternates_and_ignores_release() {
    // Triangle on subsystem 1 flips drive channel 5 between its extremes
    // on each press-edge; a release alone publishes nothing.
    let mut d = MuxDispatcher::new();
    let select = pad(vec![0, 0, 0, 0, 0, 0, 0, 0, 1, 0], vec![0; 8]);
    d.step(&select);
    d.step(&idle());
    assert_eq!(d.robot.index, 1);

    let triangle = pad(vec![0, 0, 1], vec![0; 8]);
    let out = d.step(&triangle);
    assert_eq!(out.len(), 1);
    match out[0].cmd {
        OutCommand::Point21(m) => assert_eq!(m.md5, 127),
        _ => panic!("expected a drive record for subsystem 1"),
    }
    let out = d.step(&idle());
    assert!(out.is_empty());
    let out = d.step(&triangle);
    assert_eq!(out.len(), 1);
    match out[0].cmd {
        OutCommand::Point21(m) => assert_eq!(m.md5, -128),
        _ => panic!("expected a drive record for subsystem 1"),
    }
    let out = d.step(&idle());
    assert!(out.is_empty());
}
