//! Dispatch table of the second deployment's lift robot: cross-modified
//! absolute targets on d-pad up, a relative arm accumulator nudged by d-pad
//! left/right, and cross-modified toggles on the triggers.
use vstd::prelude::*;

use crate::arm::clamp_arm;
use crate::arm::set_arm_angle;
use crate::arm::ARM_MAX;
use crate::arm::ARM_MIN;
use crate::edge::new_dualsense_state;
use crate::p9n_interface::pad_of;
use crate::p9n_interface::PadState;
use crate::p9n_interface::PlaystationInterface;
use crate::ps5_dualsense::STATE_D_PAD_LEFT;
use crate::ps5_dualsense::STATE_D_PAD_RIGHT;
use crate::ps5_dualsense::STATE_D_PAD_UP;
use crate::ps5_dualsense::STATE_L2;
use crate::ps5_dualsense::STATE_LEN;
use crate::ps5_dualsense::STATE_R2;
use crate::records::step_spec;
use crate::records::OutCommand;
use crate::records::PointDrive;
use crate::records::SequenceStep;

verus! {

/// Mathematical state of this deployment's dispatcher: control history, the
/// persistent drive record and the arm accumulator.
#[verifier::ext_equal]
pub struct Robot23View {
    pub st: Seq<bool>,
    pub m23: PointDrive,
    pub arm: int,
}

/// D-pad up: the press-edge sets two channels to one of two target pairs,
/// picked by the cross modifier; the release-edge re-publishes the record
/// unchanged.
pub open spec fn r23_up_spec(s: Robot23View, p: PadState) -> (Robot23View, Seq<SequenceStep>) {
    if p.d_pad_up && !s.st[STATE_D_PAD_UP as int] {
        let m23 = PointDrive {
            md2: if !p.cross {
                25
            } else {
                125
            },
            md3: if !p.cross {
                40
            } else {
                120
            },
            ..s.m23
        };
        (
            Robot23View { st: s.st.update(STATE_D_PAD_UP as int, true), m23, ..s },
            seq![step_spec(OutCommand::Point23(m23), 0)],
        )
    } else if !p.d_pad_up && s.st[STATE_D_PAD_UP as int] {
        (
            Robot23View { st: s.st.update(STATE_D_PAD_UP as int, false), ..s },
            seq![step_spec(OutCommand::Point23(s.m23), 0)],
        )
    } else {
        (s, seq![])
    }
}

/// D-pad left: every held cycle (the press-edge latches and falls through to
/// the held branch in the same cycle) nudges the arm accumulator up by one
/// and publishes; the release-edge re-publishes the record unchanged.
pub open spec fn r23_left_spec(s: Robot23View, p: PadState) -> (Robot23View, Seq<SequenceStep>) {
    if p.d_pad_left {
        let a = clamp_arm(s.arm + 1);
        let m23 = PointDrive { md3: a as i8, ..s.m23 };
        (
            Robot23View { st: s.st.update(STATE_D_PAD_LEFT as int, true), m23, arm: a },
            seq![step_spec(OutCommand::Point23(m23), 0)],
        )
    } else if s.st[STATE_D_PAD_LEFT as int] {
        (
            Robot23View { st: s.st.update(STATE_D_PAD_LEFT as int, false), ..s },
            seq![step_spec(OutCommand::Point23(s.m23), 0)],
        )
    } else {
        (s, seq![])
    }
}

/// D-pad right: every held cycle nudges the arm accumulator down by one and
/// publishes — and also latches the left slot, as this deployment's table
/// has it; the release-edge parks the channel at a fixed low value.
pub open spec fn r23_right_spec(s: Robot23View, p: PadState) -> (Robot23View, Seq<SequenceStep>) {
    if p.d_pad_right {
        let a = clamp_arm(s.arm + -1);
        let m23 = PointDrive { md3: a as i8, ..s.m23 };
        (
            Robot23View {
                st: s.st.update(STATE_D_PAD_RIGHT as int, true).update(
                    STATE_D_PAD_LEFT as int,
                    true,
                ),
                m23,
                arm: a,
            },
            seq![step_spec(OutCommand::Point23(m23), 0)],
        )
    } else if s.st[STATE_D_PAD_RIGHT as int] {
        let m23 = PointDrive { md3: 4, ..s.m23 };
        (
            Robot23View { st: s.st.update(STATE_D_PAD_RIGHT as int, false), m23, ..s },
            seq![step_spec(OutCommand::Point23(m23), 0)],
        )
    } else {
        (s, seq![])
    }
}

/// L2: toggle-on-press / reset-on-release on drive channel 4, re-published
/// every held cycle with the cross modifier picking the sign.
pub open spec fn r23_l2_spec(s: Robot23View, p: PadState) -> (Robot23View, Seq<SequenceStep>) {
    if p.l2 {
        let m23 = PointDrive {
            md4: if !p.cross {
                101
            } else {
                (-101) as i8
            },
            ..s.m23
        };
        (
            Robot23View { st: s.st.update(STATE_L2 as int, true), m23, ..s },
            seq![step_spec(OutCommand::Point23(m23), 0)],
        )
    } else if s.st[STATE_L2 as int] {
        let m23 = PointDrive { md4: 0, ..s.m23 };
        (
            Robot23View { st: s.st.update(STATE_L2 as int, false), m23, ..s },
            seq![step_spec(OutCommand::Point23(m23), 0)],
        )
    } else {
        (s, seq![])
    }
}

/// R2: like L2, on drive channel 5.
pub open spec fn r23_r2_spec(s: Robot23View, p: PadState) -> (Robot23View, Seq<SequenceStep>) {
    if p.r2 {
        let m23 = PointDrive {
            md5: if !p.cross {
                101
            } else {
                (-101) as i8
            },
            ..s.m23
        };
        (
            Robot23View { st: s.st.update(STATE_R2 as int, true), m23, ..s },
            seq![step_spec(OutCommand::Point23(m23), 0)],
        )
    } else if s.st[STATE_R2 as int] {
        let m23 = PointDrive { md5: 0, ..s.m23 };
        (
            Robot23View { st: s.st.update(STATE_R2 as int, false), m23, ..s },
            seq![step_spec(OutCommand::Point23(m23), 0)],
        )
    } else {
        (s, seq![])
    }
}

/// One full cycle of this deployment's dispatcher.
pub open spec fn r23_step_spec(s: Robot23View, p: PadState) -> (Robot23View, Seq<SequenceStep>) {
    let (s1, e1) = r23_up_spec(s, p);
    let (s2, e2) = r23_left_spec(s1, p);
    let (s3, e3) = r23_right_spec(s2, p);
    let (s4, e4) = r23_l2_spec(s3, p);
    let (s5, e5) = r23_r2_spec(s4, p);
    (s5, e1 + e2 + e3 + e4 + e5)
}

/// Dispatcher of the second deployment's lift robot.
pub struct Robot23Dispatcher {
    pub state: Vec<bool>,
    pub robot2_3_msg: PointDrive,
    pub arm_angle: i32,
}

impl View for Robot23Dispatcher {
    type V = Robot23View;

    open spec fn view(&self) -> Robot23View {
        Robot23View { st: self.state@, m23: self.robot2_3_msg, arm: self.arm_angle as int }
    }
}

impl Robot23Dispatcher {
    /// Full history array and an accumulator inside the clamp range.
    pub open spec fn wf(self) -> bool {
        &&& self.state@.len() == STATE_LEN
        &&& ARM_MIN <= self.arm_angle <= ARM_MAX
    }

    /// Starts with every control released, a zeroed record and the arm at
    /// the lower bound.
    pub fn new() -> (r: Robot23Dispatcher)
        ensures
            r.wf(),
            r@.st == Seq::new(STATE_LEN as nat, |i: int| false),
            r@.m23 == PointDrive::zeroed(),
            r@.arm == ARM_MIN as int,
    {
        let r = Robot23Dispatcher {
            state: new_dualsense_state(),
            robot2_3_msg: PointDrive::new(),
            arm_angle: ARM_MIN,
        };
        proof {
            assert(r@.st =~= Seq::new(STATE_LEN as nat, |i: int| false));
        }
        r
    }

    fn up_block(&mut self, p: &PadState, out: &mut Vec<SequenceStep>)
        requires
            old(self).wf(),
        ensures
            final(self).wf(),
            final(self)@ == r23_up_spec(old(self)@, *p).0,
            final(out)@ == old(out)@ + r23_up_spec(old(self)@, *p).1,
    {
        if p.d_pad_up && !self.state[STATE_D_PAD_UP] {
            self.state.set(STATE_D_PAD_UP, true);
            self.robot2_3_msg.md2 = if !p.cross {
                25
            } else {
                125
            };
            self.robot2_3_msg.md3 = if !p.cross {
                40
            } else {
                120
            };
            out.push(SequenceStep { cmd: OutCommand::Point23(self.robot2_3_msg), delay_ms: 0 });
        } else if !p.d_pad_up && self.state[STATE_D_PAD_UP] {
            self.state.set(STATE_D_PAD_UP, false);
            out.push(SequenceStep { cmd: OutCommand::Point23(self.robot2_3_msg), delay_ms: 0 });
        }
        proof {
            assert(out@ =~= old(out)@ + r23_up_spec(old(self)@, *p).1);
        }
    }

    fn left_block(&mut self, p: &PadState, out: &mut Vec<SequenceStep>)
        requires
            old(self).wf(),
        ensures
            final(self).wf(),
            final(self)@ == r23_left_spec(old(self)@, *p).0,
            final(out)@ == old(out)@ + r23_left_spec(old(self)@, *p).1,
    {
        if p.d_pad_left && !self.state[STATE_D_PAD_LEFT] {
            self.state.set(STATE_D_PAD_LEFT, true);
        }
        if p.d_pad_left && self.state[STATE_D_PAD_LEFT] {
            self.state.set(STATE_D_PAD_LEFT, true);
            self.robot2_3_msg.md3 = set_arm_angle(&mut self.arm_angle, 1);
            out.push(SequenceStep { cmd: OutCommand::Point23(self.robot2_3_msg), delay_ms: 0 });
        }
        if !p.d_pad_left && self.state[STATE_D_PAD_LEFT] {
            self.state.set(STATE_D_PAD_LEFT, false);
            out.push(SequenceStep { cmd: OutCommand::Point23(self.robot2_3_msg), delay_ms: 0 });
        }
        proof {
            assert(self@ =~= r23_left_spec(old(self)@, *p).0);
            assert(out@ =~= old(out)@ + r23_left_spec(old(self)@, *p).1);
        }
    }

    fn right_block(&mut self, p: &PadState, out: &mut Vec<SequenceStep>)
        requires
            old(self).wf(),
        ensures
            final(self).wf(),
            final(self)@ == r23_right_spec(old(self)@, *p).0,
            final(out)@ == old(out)@ + r23_right_spec(old(self)@, *p).1,
    {
        if p.d_pad_right && !self.state[STATE_D_PAD_RIGHT] {
            self.state.set(STATE_D_PAD_RIGHT, true);
        }
        if p.d_pad_right && self.state[STATE_D_PAD_RIGHT] {
            self.state.set(STATE_D_PAD_LEFT, true);
            self.robot2_3_msg.md3 = set_arm_angle(&mut self.arm_angle, -1);
            out.push(SequenceStep { cmd: OutCommand::Point23(self.robot2_3_msg), delay_ms: 0 });
        }
        if !p.d_pad_right && self.state[STATE_D_PAD_RIGHT] {
            self.state.set(STATE_D_PAD_RIGHT, false);
            self.robot2_3_msg.md3 = 4;
            out.push(SequenceStep { cmd: OutCommand::Point23(self.robot2_3_msg), delay_ms: 0 });
        }
        proof {
            assert(self@ =~= r23_right_spec(old(self)@, *p).0);
            assert(out@ =~= old(out)@ + r23_right_spec(old(self)@, *p).1);
        }
    }

    fn triggers_block(&mut self, p: &PadState, out: &mut Vec<SequenceStep>)
        requires
            old(self).wf(),
        ensures
            final(self).wf(),
            final(self)@ == r23_r2_spec(r23_l2_spec(old(self)@, *p).0, *p).0,
            final(out)@ == old(out)@ + r23_l2_spec(old(self)@, *p).1 + r23_r2_spec(
                r23_l2_spec(old(self)@, *p).0,
                *p,
            ).1,
    {
        if p.l2 {
            self.state.set(STATE_L2, true);
            self.robot2_3_msg.md4 = if !p.cross {
                101
            } else {
                -101
            };
            out.push(SequenceStep { cmd: OutCommand::Point23(self.robot2_3_msg), delay_ms: 0 });
        } else if self.state[STATE_L2] {
            self.state.set(STATE_L2, false);
            self.robot2_3_msg.md4 = 0;
            out.push(SequenceStep { cmd: OutCommand::Point23(self.robot2_3_msg), delay_ms: 0 });
        }
        if p.r2 {
            self.state.set(STATE_R2, true);
            self.robot2_3_msg.md5 = if !p.cross {
                101
            } else {
                -101
            };
            out.push(SequenceStep { cmd: OutCommand::Point23(self.robot2_3_msg), delay_ms: 0 });
        } else if self.state[STATE_R2] {
            self.state.set(STATE_R2, false);
            self.robot2_3_msg.md5 = 0;
            out.push(SequenceStep { cmd: OutCommand::Point23(self.robot2_3_msg), delay_ms: 0 });
        }
        proof {
            assert(out@ =~= old(out)@ + r23_l2_spec(old(self)@, *p).1 + r23_r2_spec(
                r23_l2_spec(old(self)@, *p).0,
                *p,
            ).1);
        }
    }

    /// One input cycle against the snapshot held by `p9n`: the five handlers
    /// in dispatch order, publications concatenated.
    pub fn step(&mut self, p9n: &PlaystationInterface) -> (out: Vec<SequenceStep>)
        requires
            old(self).wf(),
        ensures
            final(self).wf(),
            final(self)@ == r23_step_spec(
                old(self)@,
                pad_of(p9n.msg.buttons@, p9n.msg.axes@),
            ).0,
            out@ == r23_step_spec(old(self)@, pad_of(p9n.msg.buttons@, p9n.msg.axes@)).1,
    {
        let p = p9n.read_pad();
        let mut out: Vec<SequenceStep> = Vec::new();
        self.up_block(&p, &mut out);
        self.left_block(&p, &mut out);
        self.right_block(&p, &mut out);
        self.triggers_block(&p, &mut out);
        proof {
            assert(out@ =~= r23_step_spec(old(self)@, pad_of(p9n.msg.buttons@, p9n.msg.axes@)).1);
        }
        out
    }
}

} // verus!
