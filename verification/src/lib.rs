//! Edge-triggered gamepad dispatcher with stateful target multiplexing and
//! timed actuation sequencing.
//!
//! A periodic stream of raw controller snapshots (button flags and axis
//! values) is normalized into named logical controls, classified per control
//! into press-edge / release-edge / no-change against the last observed
//! state, and mapped — through per-deployment dispatch tables, a cycling
//! target selector and clamped angle accumulators — into outgoing command
//! records for motor, solenoid and servo drivers. Compound actions come out
//! as ordered lists of (command, post-delay) steps which the surrounding
//! process publishes and sleeps through; the transport itself stays outside
//! this crate.
pub mod arm;
pub mod edge;
pub mod launcher;
pub mod mux;
pub mod p9n_interface;
pub mod ps5_dualsense;
pub mod records;
pub mod robot2_1;
pub mod robot2_2;
pub mod robot2_3;
pub mod robot2_4;
pub mod target;
