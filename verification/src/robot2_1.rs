//! Dispatch table of the second deployment's gripper robot: a servo swung
//! between two fixed angles by d-pad left, a signed drive channel on d-pad
//! up, and a flip-flop between full power and rest on triangle.
use vstd::prelude::*;

use crate::arm::calc_degree_to_pulsewidth;
use crate::arm::degree_to_pulsewidth_spec;
use crate::edge::new_dualsense_state;
use crate::p9n_interface::pad_of;
use crate::p9n_interface::PadState;
use crate::p9n_interface::PlaystationInterface;
use crate::ps5_dualsense::STATE_D_PAD_LEFT;
use crate::ps5_dualsense::STATE_D_PAD_UP;
use crate::ps5_dualsense::STATE_LEN;
use crate::ps5_dualsense::STATE_TRIANGLE;
use crate::records::step_spec;
use crate::records::OutCommand;
use crate::records::PointDrive;
use crate::records::SequenceStep;

verus! {

/// Mathematical state of this deployment's dispatcher.
#[verifier::ext_equal]
pub struct Robot21View {
    pub st: Seq<bool>,
    pub m21: PointDrive,
}

/// D-pad left: the press-edge swings the servo channel to the 45-degree
/// pulse width, the release-edge to the 135-degree one.
pub open spec fn r21_left_spec(s: Robot21View, p: PadState) -> (Robot21View, Seq<SequenceStep>) {
    if p.d_pad_left && !s.st[STATE_D_PAD_LEFT as int] {
        let m21 = PointDrive {
            md2: 1,
            md3: degree_to_pulsewidth_spec(45) as i8,
            ..s.m21
        };
        (
            Robot21View { st: s.st.update(STATE_D_PAD_LEFT as int, true), m21 },
            seq![step_spec(OutCommand::Point21(m21), 0)],
        )
    } else if !p.d_pad_left && s.st[STATE_D_PAD_LEFT as int] {
        let m21 = PointDrive {
            md2: 1,
            md3: degree_to_pulsewidth_spec(135) as i8,
            ..s.m21
        };
        (
            Robot21View { st: s.st.update(STATE_D_PAD_LEFT as int, false), m21 },
            seq![step_spec(OutCommand::Point21(m21), 0)],
        )
    } else {
        (s, seq![])
    }
}

/// D-pad up: every held cycle re-publishes drive channel 4 with the sign the
/// cross modifier picks; the release-edge zeroes it.
pub open spec fn r21_up_spec(s: Robot21View, p: PadState) -> (Robot21View, Seq<SequenceStep>) {
    if p.d_pad_up {
        let m21 = PointDrive {
            md2: 0,
            md4: if !p.cross {
                1
            } else {
                (-1) as i8
            },
            ..s.m21
        };
        (
            Robot21View { st: s.st.update(STATE_D_PAD_UP as int, true), m21 },
            seq![step_spec(OutCommand::Point21(m21), 0)],
        )
    } else if s.st[STATE_D_PAD_UP as int] {
        let m21 = PointDrive { md2: 0, md4: 0, ..s.m21 };
        (
            Robot21View { st: s.st.update(STATE_D_PAD_UP as int, false), m21 },
            seq![step_spec(OutCommand::Point21(m21), 0)],
        )
    } else {
        (s, seq![])
    }
}

/// Triangle: flip-flop of drive channel 5 between full power and rest,
/// press-edge only.
pub open spec fn r21_triangle_spec(s: Robot21View, p: PadState) -> (
    Robot21View,
    Seq<SequenceStep>,
) {
    if p.triangle && !s.st[STATE_TRIANGLE as int] {
        let m21 = PointDrive {
            md5: if s.m21.md5 <= 0 {
                127
            } else {
                0
            },
            ..s.m21
        };
        (
            Robot21View { st: s.st.update(STATE_TRIANGLE as int, true), m21 },
            seq![step_spec(OutCommand::Point21(m21), 0)],
        )
    } else if !p.triangle && s.st[STATE_TRIANGLE as int] {
        (Robot21View { st: s.st.update(STATE_TRIANGLE as int, false), ..s }, seq![])
    } else {
        (s, seq![])
    }
}

/// One full cycle of this deployment's dispatcher.
pub open spec fn r21_step_spec(s: Robot21View, p: PadState) -> (Robot21View, Seq<SequenceStep>) {
    let (s1, e1) = r21_left_spec(s, p);
    let (s2, e2) = r21_up_spec(s1, p);
    let (s3, e3) = r21_triangle_spec(s2, p);
    (s3, e1 + e2 + e3)
}

/// Dispatcher of the second deployment's gripper robot.
pub struct Robot21Dispatcher {
    pub state: Vec<bool>,
    pub robot2_1_msg: PointDrive,
}

impl View for Robot21Dispatcher {
    type V = Robot21View;

    open spec fn view(&self) -> Robot21View {
        Robot21View { st: self.state@, m21: self.robot2_1_msg }
    }
}

impl Robot21Dispatcher {
    /// Full history array.
    pub open spec fn wf(self) -> bool {
        self.state@.len() == STATE_LEN
    }

    /// Starts with every control released and a zeroed record.
    pub fn new() -> (r: Robot21Dispatcher)
        ensures
            r.wf(),
            r@.st == Seq::new(STATE_LEN as nat, |i: int| false),
            r@.m21 == PointDrive::zeroed(),
    {
        let r = Robot21Dispatcher {
            state: new_dualsense_state(),
            robot2_1_msg: PointDrive::new(),
        };
        proof {
            assert(r@.st =~= Seq::new(STATE_LEN as nat, |i: int| false));
        }
        r
    }

    /// One input cycle against the snapshot held by `p9n`: the three
    /// handlers in dispatch order, publications concatenated.
    pub fn step(&mut self, p9n: &PlaystationInterface) -> (out: Vec<SequenceStep>)
        requires
            old(self).wf(),
        ensures
            final(self).wf(),
            final(self)@ == r21_step_spec(
                old(self)@,
                pad_of(p9n.msg.buttons@, p9n.msg.axes@),
            ).0,
            out@ == r21_step_spec(old(self)@, pad_of(p9n.msg.buttons@, p9n.msg.axes@)).1,
    {
        let p = p9n.read_pad();
        let mut out: Vec<SequenceStep> = Vec::new();
        if p.d_pad_left && !self.state[STATE_D_PAD_LEFT] {
            self.state.set(STATE_D_PAD_LEFT, true);
            self.robot2_1_msg.md2 = 1;
            self.robot2_1_msg.md3 = calc_degree_to_pulsewidth(45) as i8;
            out.push(SequenceStep { cmd: OutCommand::Point21(self.robot2_1_msg), delay_ms: 0 });
        } else if !p.d_pad_left && self.state[STATE_D_PAD_LEFT] {
            self.state.set(STATE_D_PAD_LEFT, false);
            self.robot2_1_msg.md2 = 1;
            self.robot2_1_msg.md3 = calc_degree_to_pulsewidth(135) as i8;
            out.push(SequenceStep { cmd: OutCommand::Point21(self.robot2_1_msg), delay_ms: 0 });
        }
        if p.d_pad_up {
            self.state.set(STATE_D_PAD_UP, true);
            self.robot2_1_msg.md2 = 0;
            self.robot2_1_msg.md4 = if !p.cross {
                1
            } else {
                -1
            };
            out.push(SequenceStep { cmd: OutCommand::Point21(self.robot2_1_msg), delay_ms: 0 });
        } else if self.state[STATE_D_PAD_UP] {
            self.state.set(STATE_D_PAD_UP, false);
            self.robot2_1_msg.md2 = 0;
            self.robot2_1_msg.md4 = 0;
            out.push(SequenceStep { cmd: OutCommand::Point21(self.robot2_1_msg), delay_ms: 0 });
        }
        if p.triangle && !self.state[STATE_TRIANGLE] {
            self.state.set(STATE_TRIANGLE, true);
            self.robot2_1_msg.md5 = if self.robot2_1_msg.md5 <= 0 {
                127
            } else {
                0
            };
            out.push(SequenceStep { cmd: OutCommand::Point21(self.robot2_1_msg), delay_ms: 0 });
        } else if !p.triangle && self.state[STATE_TRIANGLE] {
            self.state.set(STATE_TRIANGLE, false);
        }
        proof {
            assert(out@ =~= r21_step_spec(old(self)@, pad_of(p9n.msg.buttons@, p9n.msg.axes@)).1);
        }
        out
    }
}

} // verus!
