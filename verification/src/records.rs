//! Outgoing command records, one shape per actuation subsystem, and the
//! sequencing step that pairs a record with a post-publish delay.
//!
//! A dispatcher mutates its persistent copy of each record and hands the full
//! record (not just the changed field) to the transport on every publish;
//! downstream drivers are stateless consumers of "current desired state".
use vstd::prelude::*;

verus! {

/// Command record for a motor driver: address, drive mode, rotation phase
/// and power.
#[derive(Clone, Copy, PartialEq, Eq, Structural, Debug)]
pub struct MdLibMsg {
    pub address: u8,
    pub mode: u8,
    pub phase: bool,
    pub power: i16,
}

impl MdLibMsg {
    /// The all-zero record.
    pub open spec fn zeroed() -> MdLibMsg {
        MdLibMsg { address: 0, mode: 0, phase: false, power: 0 }
    }

    pub fn new() -> (r: MdLibMsg)
        ensures
            r == MdLibMsg::zeroed(),
    {
        MdLibMsg { address: 0, mode: 0, phase: false, power: 0 }
    }
}

/// Command record for a solenoid driver: address, port and the power of its
/// two channels.
#[derive(Clone, Copy, PartialEq, Eq, Structural, Debug)]
pub struct SdLibMsg {
    pub address: u8,
    pub port: u8,
    pub power1: i16,
    pub power2: i16,
}

impl SdLibMsg {
    /// The all-zero record.
    pub open spec fn zeroed() -> SdLibMsg {
        SdLibMsg { address: 0, port: 0, power1: 0, power2: 0 }
    }

    pub fn new() -> (r: SdLibMsg)
        ensures
            r == SdLibMsg::zeroed(),
    {
        SdLibMsg { address: 0, port: 0, power1: 0, power2: 0 }
    }
}

/// Command record for a servo driver: address, port, mode and target angle.
#[derive(Clone, Copy, PartialEq, Eq, Structural, Debug)]
pub struct SmdLibMsg {
    pub address: u8,
    pub port: u8,
    pub mode: u8,
    pub angle: u8,
}

impl SmdLibMsg {
    /// The all-zero record.
    pub open spec fn zeroed() -> SmdLibMsg {
        SmdLibMsg { address: 0, port: 0, mode: 0, angle: 0 }
    }

    pub fn new() -> (r: SmdLibMsg)
        ensures
            r == SmdLibMsg::zeroed(),
    {
        SmdLibMsg { address: 0, port: 0, mode: 0, angle: 0 }
    }
}

/// Multi-joint drive record: six independently signed channels.
#[derive(Clone, Copy, PartialEq, Eq, Structural, Debug)]
pub struct PointDrive {
    pub md0: i16,
    pub md1: i16,
    pub md2: i8,
    pub md3: i8,
    pub md4: i8,
    pub md5: i8,
}

impl PointDrive {
    /// The all-zero record.
    pub open spec fn zeroed() -> PointDrive {
        PointDrive { md0: 0, md1: 0, md2: 0, md3: 0, md4: 0, md5: 0 }
    }

    pub fn new() -> (r: PointDrive)
        ensures
            r == PointDrive::zeroed(),
    {
        PointDrive { md0: 0, md1: 0, md2: 0, md3: 0, md4: 0, md5: 0 }
    }
}

/// A pose target handed to the navigation side, in whole units; every goal
/// this system sends sits on integer coordinates.
#[derive(Clone, Copy, PartialEq, Eq, Structural, Debug)]
pub struct PoseGoal {
    pub x: i32,
    pub y: i32,
    pub z: i32,
}

/// One outgoing message, tagged with the channel it is addressed to.
#[derive(Clone, Copy, PartialEq, Eq, Structural, Debug)]
pub enum OutCommand {
    Md(MdLibMsg),
    Sd(SdLibMsg),
    Smd(SmdLibMsg),
    Point21(PointDrive),
    Point22(PointDrive),
    Point23(PointDrive),
    Point24(PointDrive),
    Pose(PoseGoal),
}

/// One step of an actuation sequence: publish the command, then block for the
/// delay before the next step runs. Immediate publishes carry a zero delay.
#[derive(Clone, Copy, PartialEq, Eq, Structural, Debug)]
pub struct SequenceStep {
    pub cmd: OutCommand,
    pub delay_ms: u64,
}

/// Builds one sequence step.
pub open spec fn step_spec(cmd: OutCommand, delay_ms: u64) -> SequenceStep {
    SequenceStep { cmd, delay_ms }
}

} // verus!
