//! Dispatch table of the second deployment's arm robot: four arm channels
//! under a switchable mapping policy, plus a cross-modified toggle.
//!
//! Circle selects the relative policy (nudge the clamped accumulator while
//! held), square the absolute one (jump to an extreme on press, another on
//! release); each of the four shoulder/trigger controls drives one channel
//! of the multi-joint record, two of them mirrored. This deployment runs on
//! a fixed tick that reads whatever snapshot currently occupies a shared
//! slot, so a frame may be seen twice or skipped; the mapping tolerates both.
use vstd::prelude::*;

use crate::arm::arm_mode0;
use crate::arm::arm_mode0_result;
use crate::arm::arm_mode1;
use crate::arm::arm_mode1_result;
use crate::arm::clamp_arm;
use crate::arm::set_arm_angle;
use crate::arm::ARM_MAX;
use crate::arm::ARM_MIN;
use crate::edge::new_dualsense_state;
use crate::p9n_interface::pad_of;
use crate::p9n_interface::PadState;
use crate::p9n_interface::PlaystationInterface;
use crate::ps5_dualsense::STATE_CIRCLE;
use crate::ps5_dualsense::STATE_L1;
use crate::ps5_dualsense::STATE_L2;
use crate::ps5_dualsense::STATE_LEN;
use crate::ps5_dualsense::STATE_R1;
use crate::ps5_dualsense::STATE_R2;
use crate::ps5_dualsense::STATE_TRIANGLE;
use crate::records::step_spec;
use crate::records::OutCommand;
use crate::records::PointDrive;
use crate::records::SequenceStep;

verus! {

/// Mathematical state of this deployment's dispatcher: control history, the
/// persistent drive record, the four arm accumulators and the active policy.
#[verifier::ext_equal]
pub struct Robot22View {
    pub st: Seq<bool>,
    pub m22: PointDrive,
    pub arm0: int,
    pub arm1: int,
    pub arm2: int,
    pub arm3: int,
    pub arm_mode: int,
}

/// Relative policy, channel 0 (l2, straight sign): the accumulator step the
/// policy answers is integrated and the stored value drives the field.
pub open spec fn r22_mode0_l2_spec(s: Robot22View, p: PadState) -> (
    Robot22View,
    Seq<SequenceStep>,
) {
    let r = arm_mode0_result(p.l2, s.st[STATE_L2 as int], p.cross);
    let s1 = Robot22View { st: s.st.update(STATE_L2 as int, p.l2), ..s };
    if r == -2 {
        (s1, seq![])
    } else {
        let a = clamp_arm(s.arm0 + r);
        let m22 = PointDrive { md0: a as i16, ..s.m22 };
        (
            Robot22View { arm0: a, m22, ..s1 },
            seq![step_spec(OutCommand::Point22(m22), 0)],
        )
    }
}

/// Relative policy, channel 3 (r1, straight sign).
pub open spec fn r22_mode0_r1_spec(s: Robot22View, p: PadState) -> (
    Robot22View,
    Seq<SequenceStep>,
) {
    let r = arm_mode0_result(p.r1, s.st[STATE_R1 as int], p.cross);
    let s1 = Robot22View { st: s.st.update(STATE_R1 as int, p.r1), ..s };
    if r == -2 {
        (s1, seq![])
    } else {
        let a = clamp_arm(s.arm3 + r);
        let m22 = PointDrive { md3: a as i8, ..s.m22 };
        (
            Robot22View { arm3: a, m22, ..s1 },
            seq![step_spec(OutCommand::Point22(m22), 0)],
        )
    }
}

/// Relative policy, channel 1 (l1, mirrored sign).
pub open spec fn r22_mode0_l1_spec(s: Robot22View, p: PadState) -> (
    Robot22View,
    Seq<SequenceStep>,
) {
    let r = arm_mode0_result(p.l1, s.st[STATE_L1 as int], p.cross);
    let s1 = Robot22View { st: s.st.update(STATE_L1 as int, p.l1), ..s };
    if r == -2 {
        (s1, seq![])
    } else {
        let a = clamp_arm(s.arm1 + -r);
        let m22 = PointDrive { md1: a as i16, ..s.m22 };
        (
            Robot22View { arm1: a, m22, ..s1 },
            seq![step_spec(OutCommand::Point22(m22), 0)],
        )
    }
}

/// Relative policy, channel 2 (r2, mirrored sign).
pub open spec fn r22_mode0_r2_spec(s: Robot22View, p: PadState) -> (
    Robot22View,
    Seq<SequenceStep>,
) {
    let r = arm_mode0_result(p.r2, s.st[STATE_R2 as int], p.cross);
    let s1 = Robot22View { st: s.st.update(STATE_R2 as int, p.r2), ..s };
    if r == -2 {
        (s1, seq![])
    } else {
        let a = clamp_arm(s.arm2 + -r);
        let m22 = PointDrive { md2: a as i8, ..s.m22 };
        (
            Robot22View { arm2: a, m22, ..s1 },
            seq![step_spec(OutCommand::Point22(m22), 0)],
        )
    }
}

/// Absolute policy, channel 0 (l2, straight target).
pub open spec fn r22_mode1_l2_spec(s: Robot22View, p: PadState) -> (
    Robot22View,
    Seq<SequenceStep>,
) {
    let r = arm_mode1_result(p.l2, s.st[STATE_L2 as int]);
    let s1 = Robot22View { st: s.st.update(STATE_L2 as int, p.l2), ..s };
    if r == -2 {
        (s1, seq![])
    } else {
        let m22 = PointDrive { md0: r as i16, ..s.m22 };
        (
            Robot22View { arm0: r, m22, ..s1 },
            seq![step_spec(OutCommand::Point22(m22), 0)],
        )
    }
}

/// Absolute policy, channel 3 (r1, straight target).
pub open spec fn r22_mode1_r1_spec(s: Robot22View, p: PadState) -> (
    Robot22View,
    Seq<SequenceStep>,
) {
    let r = arm_mode1_result(p.r1, s.st[STATE_R1 as int]);
    let s1 = Robot22View { st: s.st.update(STATE_R1 as int, p.r1), ..s };
    if r == -2 {
        (s1, seq![])
    } else {
        let m22 = PointDrive { md3: r as i8, ..s.m22 };
        (
            Robot22View { arm3: r, m22, ..s1 },
            seq![step_spec(OutCommand::Point22(m22), 0)],
        )
    }
}

/// Absolute policy, channel 1 (l1, mirrored target).
pub open spec fn r22_mode1_l1_spec(s: Robot22View, p: PadState) -> (
    Robot22View,
    Seq<SequenceStep>,
) {
    let r = arm_mode1_result(p.l1, s.st[STATE_L1 as int]);
    let s1 = Robot22View { st: s.st.update(STATE_L1 as int, p.l1), ..s };
    if r == -2 {
        (s1, seq![])
    } else {
        let m22 = PointDrive { md1: (150 - r) as i16, ..s.m22 };
        (
            Robot22View { arm1: 150 - r, m22, ..s1 },
            seq![step_spec(OutCommand::Point22(m22), 0)],
        )
    }
}

/// Absolute policy, channel 2 (r2, mirrored target).
pub open spec fn r22_mode1_r2_spec(s: Robot22View, p: PadState) -> (
    Robot22View,
    Seq<SequenceStep>,
) {
    let r = arm_mode1_result(p.r2, s.st[STATE_R2 as int]);
    let s1 = Robot22View { st: s.st.update(STATE_R2 as int, p.r2), ..s };
    if r == -2 {
        (s1, seq![])
    } else {
        let m22 = PointDrive { md2: (150 - r) as i8, ..s.m22 };
        (
            Robot22View { arm2: 150 - r, m22, ..s1 },
            seq![step_spec(OutCommand::Point22(m22), 0)],
        )
    }
}

/// The four relative-policy channels in dispatch order.
pub open spec fn r22_mode0_spec(s: Robot22View, p: PadState) -> (
    Robot22View,
    Seq<SequenceStep>,
) {
    let (s1, e1) = r22_mode0_l2_spec(s, p);
    let (s2, e2) = r22_mode0_r1_spec(s1, p);
    let (s3, e3) = r22_mode0_l1_spec(s2, p);
    let (s4, e4) = r22_mode0_r2_spec(s3, p);
    (s4, e1 + e2 + e3 + e4)
}

/// The four absolute-policy channels in dispatch order.
pub open spec fn r22_mode1_spec(s: Robot22View, p: PadState) -> (
    Robot22View,
    Seq<SequenceStep>,
) {
    let (s1, e1) = r22_mode1_l2_spec(s, p);
    let (s2, e2) = r22_mode1_r1_spec(s1, p);
    let (s3, e3) = r22_mode1_l1_spec(s2, p);
    let (s4, e4) = r22_mode1_r2_spec(s3, p);
    (s4, e1 + e2 + e3 + e4)
}

/// Triangle: cross-modified toggle on drive channel 5, press-edge only.
pub open spec fn r22_triangle_spec(s: Robot22View, p: PadState) -> (
    Robot22View,
    Seq<SequenceStep>,
) {
    if p.triangle && !s.st[STATE_TRIANGLE as int] {
        let m22 = PointDrive {
            md5: if !p.cross {
                127
            } else {
                (-128) as i8
            },
            ..s.m22
        };
        (
            Robot22View { st: s.st.update(STATE_TRIANGLE as int, true), m22, ..s },
            seq![step_spec(OutCommand::Point22(m22), 0)],
        )
    } else if !p.triangle && s.st[STATE_TRIANGLE as int] {
        (Robot22View { st: s.st.update(STATE_TRIANGLE as int, false), ..s }, seq![])
    } else {
        (s, seq![])
    }
}

/// One full tick: the channel block of whichever policy is active, the
/// circle/square policy switches (circle also latches its own history slot),
/// then the triangle toggle.
pub open spec fn laborer_spec(s: Robot22View, p: PadState) -> (Robot22View, Seq<SequenceStep>) {
    let (s1, e1) = if s.arm_mode == 0 {
        r22_mode0_spec(s, p)
    } else {
        (s, seq![])
    };
    let (s2, e2) = if s1.arm_mode == 1 {
        r22_mode1_spec(s1, p)
    } else {
        (s1, seq![])
    };
    let s3 = if p.circle {
        Robot22View { st: s2.st.update(STATE_CIRCLE as int, true), arm_mode: 0, ..s2 }
    } else {
        s2
    };
    let s4 = if p.square {
        Robot22View { arm_mode: 1, ..s3 }
    } else {
        s3
    };
    let (s5, e5) = r22_triangle_spec(s4, p);
    (s5, e1 + e2 + e5)
}

/// Dispatcher of the second deployment's arm robot.
pub struct Robot22Dispatcher {
    pub state: Vec<bool>,
    pub robot2_2_msg: PointDrive,
    pub arms_angle0: i32,
    pub arms_angle1: i32,
    pub arms_angle2: i32,
    pub arms_angle3: i32,
    pub arm_mode: isize,
}

impl View for Robot22Dispatcher {
    type V = Robot22View;

    open spec fn view(&self) -> Robot22View {
        Robot22View {
            st: self.state@,
            m22: self.robot2_2_msg,
            arm0: self.arms_angle0 as int,
            arm1: self.arms_angle1 as int,
            arm2: self.arms_angle2 as int,
            arm3: self.arms_angle3 as int,
            arm_mode: self.arm_mode as int,
        }
    }
}

impl Robot22Dispatcher {
    /// Full history array and all four accumulators inside the clamp range.
    pub open spec fn wf(self) -> bool {
        &&& self.state@.len() == STATE_LEN
        &&& ARM_MIN <= self.arms_angle0 <= ARM_MAX
        &&& ARM_MIN <= self.arms_angle1 <= ARM_MAX
        &&& ARM_MIN <= self.arms_angle2 <= ARM_MAX
        &&& ARM_MIN <= self.arms_angle3 <= ARM_MAX
    }

    /// Starts with every control released, all accumulators at the lower
    /// bound, a zeroed record and the absolute policy active.
    pub fn new() -> (r: Robot22Dispatcher)
        ensures
            r.wf(),
            r@.st == Seq::new(STATE_LEN as nat, |i: int| false),
            r@.m22 == PointDrive::zeroed(),
            r@.arm0 == ARM_MIN as int,
            r@.arm1 == ARM_MIN as int,
            r@.arm2 == ARM_MIN as int,
            r@.arm3 == ARM_MIN as int,
            r@.arm_mode == 1,
    {
        let r = Robot22Dispatcher {
            state: new_dualsense_state(),
            robot2_2_msg: PointDrive::new(),
            arms_angle0: ARM_MIN,
            arms_angle1: ARM_MIN,
            arms_angle2: ARM_MIN,
            arms_angle3: ARM_MIN,
            arm_mode: 1,
        };
        proof {
            assert(r@.st =~= Seq::new(STATE_LEN as nat, |i: int| false));
        }
        r
    }

    #[verifier::rlimit(100)]
    fn mode0_block(&mut self, p9n: &PlaystationInterface, p: &PadState, out: &mut Vec<
        SequenceStep,
    >)
        requires
            old(self).wf(),
            *p == pad_of(p9n.msg.buttons@, p9n.msg.axes@),
        ensures
            final(self).wf(),
            final(self)@ == r22_mode0_spec(old(self)@, *p).0,
            final(out)@ == old(out)@ + r22_mode0_spec(old(self)@, *p).1,
    {
        let other: i32 = arm_mode0(p9n, p.l2, &mut self.state, STATE_L2);
        if other != -2 {
            self.robot2_2_msg.md0 = set_arm_angle(&mut self.arms_angle0, other) as i16;
            out.push(SequenceStep { cmd: OutCommand::Point22(self.robot2_2_msg), delay_ms: 0 });
        }
        let other: i32 = arm_mode0(p9n, p.r1, &mut self.state, STATE_R1);
        if other != -2 {
            self.robot2_2_msg.md3 = set_arm_angle(&mut self.arms_angle3, other);
            out.push(SequenceStep { cmd: OutCommand::Point22(self.robot2_2_msg), delay_ms: 0 });
        }
        let other: i32 = arm_mode0(p9n, p.l1, &mut self.state, STATE_L1);
        if other != -2 {
            self.robot2_2_msg.md1 = set_arm_angle(&mut self.arms_angle1, -other) as i16;
            out.push(SequenceStep { cmd: OutCommand::Point22(self.robot2_2_msg), delay_ms: 0 });
        }
        let other: i32 = arm_mode0(p9n, p.r2, &mut self.state, STATE_R2);
        if other != -2 {
            self.robot2_2_msg.md2 = set_arm_angle(&mut self.arms_angle2, -other);
            out.push(SequenceStep { cmd: OutCommand::Point22(self.robot2_2_msg), delay_ms: 0 });
        }
        proof {
            assert(out@ =~= old(out)@ + r22_mode0_spec(old(self)@, *p).1);
        }
    }

    #[verifier::rlimit(100)]
    fn mode1_block(&mut self, p: &PadState, out: &mut Vec<SequenceStep>)
        requires
            old(self).wf(),
        ensures
            final(self).wf(),
            final(self)@ == r22_mode1_spec(old(self)@, *p).0,
            final(out)@ == old(out)@ + r22_mode1_spec(old(self)@, *p).1,
    {
        let other: isize = arm_mode1(p.l2, &mut self.state, STATE_L2);
        if other != -2 {
            self.robot2_2_msg.md0 = other as i16;
            self.arms_angle0 = other as i32;
            out.push(SequenceStep { cmd: OutCommand::Point22(self.robot2_2_msg), delay_ms: 0 });
        }
        let other: isize = arm_mode1(p.r1, &mut self.state, STATE_R1);
        if other != -2 {
            self.robot2_2_msg.md3 = other as i8;
            self.arms_angle3 = other as i32;
            out.push(SequenceStep { cmd: OutCommand::Point22(self.robot2_2_msg), delay_ms: 0 });
        }
        let other: isize = arm_mode1(p.l1, &mut self.state, STATE_L1);
        if other != -2 {
            self.robot2_2_msg.md1 = (150 - other) as i16;
            self.arms_angle1 = (150 - other) as i32;
            out.push(SequenceStep { cmd: OutCommand::Point22(self.robot2_2_msg), delay_ms: 0 });
        }
        let other: isize = arm_mode1(p.r2, &mut self.state, STATE_R2);
        if other != -2 {
            self.robot2_2_msg.md2 = (150 - other) as i8;
            self.arms_angle2 = (150 - other) as i32;
            out.push(SequenceStep { cmd: OutCommand::Point22(self.robot2_2_msg), delay_ms: 0 });
        }
        proof {
            assert(out@ =~= old(out)@ + r22_mode1_spec(old(self)@, *p).1);
        }
    }

    /// One tick of this deployment's dispatcher against the snapshot held by
    /// `p9n`: runs the active policy's channel block, applies the
    /// circle/square policy switches and the triangle toggle, and returns
    /// this tick's publications in dispatch order.
    pub fn laborer(&mut self, p9n: &PlaystationInterface) -> (out: Vec<SequenceStep>)
        requires
            old(self).wf(),
        ensures
            final(self).wf(),
            final(self)@ == laborer_spec(
                old(self)@,
                pad_of(p9n.msg.buttons@, p9n.msg.axes@),
            ).0,
            out@ == laborer_spec(old(self)@, pad_of(p9n.msg.buttons@, p9n.msg.axes@)).1,
    {
        let p = p9n.read_pad();
        let mut out: Vec<SequenceStep> = Vec::new();
        if self.arm_mode == 0 {
            self.mode0_block(p9n, &p, &mut out);
        }
        if self.arm_mode == 1 {
            self.mode1_block(&p, &mut out);
        }
        if p.circle {
            self.state.set(STATE_CIRCLE, true);
        }
        if p.circle {
            self.arm_mode = 0;
        }
        if p.square {
            self.arm_mode = 1;
        }
        if p.triangle && !self.state[STATE_TRIANGLE] {
            self.state.set(STATE_TRIANGLE, true);
            self.robot2_2_msg.md5 = if !p.cross {
                127
            } else {
                -128
            };
            out.push(SequenceStep { cmd: OutCommand::Point22(self.robot2_2_msg), delay_ms: 0 });
        } else if !p.triangle && self.state[STATE_TRIANGLE] {
            self.state.set(STATE_TRIANGLE, false);
        }
        proof {
            assert(out@ =~= laborer_spec(old(self)@, pad_of(p9n.msg.buttons@, p9n.msg.axes@)).1);
        }
        out
    }
}

} // verus!
