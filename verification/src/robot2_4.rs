//! Dispatch table of the second deployment's collector robot: cross-modified
//! absolute targets on d-pad up, and two pairs of opposing controls that pin
//! a servo channel to one extreme while latched and re-home it to the middle
//! whenever neither side is held.
use vstd::prelude::*;

use crate::edge::new_dualsense_state;
use crate::p9n_interface::pad_of;
use crate::p9n_interface::PadState;
use crate::p9n_interface::PlaystationInterface;
use crate::ps5_dualsense::STATE_D_PAD_UP;
use crate::ps5_dualsense::STATE_L1;
use crate::ps5_dualsense::STATE_L2;
use crate::ps5_dualsense::STATE_LEN;
use crate::ps5_dualsense::STATE_R1;
use crate::ps5_dualsense::STATE_R2;
use crate::records::step_spec;
use crate::records::OutCommand;
use crate::records::PointDrive;
use crate::records::SequenceStep;

verus! {

/// Mathematical state of this deployment's dispatcher.
#[verifier::ext_equal]
pub struct Robot24View {
    pub st: Seq<bool>,
    pub m24: PointDrive,
}

/// D-pad up: the press-edge sets drive channel 0 to one of two targets,
/// picked by the cross modifier; the release-edge re-publishes the record
/// unchanged.
pub open spec fn r24_up_spec(s: Robot24View, p: PadState) -> (Robot24View, Seq<SequenceStep>) {
    if p.d_pad_up && !s.st[STATE_D_PAD_UP as int] {
        let m24 = PointDrive {
            md0: if !p.cross {
                125
            } else {
                80
            },
            ..s.m24
        };
        (
            Robot24View { st: s.st.update(STATE_D_PAD_UP as int, true), m24 },
            seq![step_spec(OutCommand::Point24(m24), 0)],
        )
    } else if !p.d_pad_up && s.st[STATE_D_PAD_UP as int] {
        (
            Robot24View { st: s.st.update(STATE_D_PAD_UP as int, false), ..s },
            seq![step_spec(OutCommand::Point24(s.m24), 0)],
        )
    } else {
        (s, seq![])
    }
}

/// The left pair: l2's press-edge pins channel 3 high, l1's pins it low,
/// and whenever neither latch is held the channel re-homes to the middle —
/// re-published every such cycle.
pub open spec fn r24_left_pair_spec(s: Robot24View, p: PadState) -> (
    Robot24View,
    Seq<SequenceStep>,
) {
    let (s1, e1) = if p.l2 && !s.st[STATE_L2 as int] {
        let m24 = PointDrive { md3: 125, ..s.m24 };
        (
            Robot24View { st: s.st.update(STATE_L2 as int, true), m24 },
            seq![step_spec(OutCommand::Point24(m24), 0)],
        )
    } else if !p.l2 && s.st[STATE_L2 as int] {
        (Robot24View { st: s.st.update(STATE_L2 as int, false), ..s }, Seq::<
            SequenceStep,
        >::empty())
    } else {
        (s, Seq::<SequenceStep>::empty())
    };
    let (s2, e2) = if p.l1 && !s1.st[STATE_L1 as int] {
        let m24 = PointDrive { md3: 25, ..s1.m24 };
        (
            Robot24View { st: s1.st.update(STATE_L1 as int, true), m24 },
            seq![step_spec(OutCommand::Point24(m24), 0)],
        )
    } else if !p.l1 && s1.st[STATE_L1 as int] {
        (Robot24View { st: s1.st.update(STATE_L1 as int, false), ..s1 }, Seq::<
            SequenceStep,
        >::empty())
    } else {
        (s1, Seq::<SequenceStep>::empty())
    };
    let (s3, e3) = if !s2.st[STATE_L2 as int] && !s2.st[STATE_L1 as int] {
        let m24 = PointDrive { md3: 80, ..s2.m24 };
        (Robot24View { m24, ..s2 }, seq![step_spec(OutCommand::Point24(m24), 0)])
    } else {
        (s2, Seq::<SequenceStep>::empty())
    };
    (s3, e1 + e2 + e3)
}

/// The right pair: r2's press-edge pins channel 1 low, r1's pins it high,
/// with the same re-home-to-the-middle rule.
pub open spec fn r24_right_pair_spec(s: Robot24View, p: PadState) -> (
    Robot24View,
    Seq<SequenceStep>,
) {
    let (s1, e1) = if p.r2 && !s.st[STATE_R2 as int] {
        let m24 = PointDrive { md1: 25, ..s.m24 };
        (
            Robot24View { st: s.st.update(STATE_R2 as int, true), m24 },
            seq![step_spec(OutCommand::Point24(m24), 0)],
        )
    } else if !p.r2 && s.st[STATE_R2 as int] {
        (Robot24View { st: s.st.update(STATE_R2 as int, false), ..s }, Seq::<
            SequenceStep,
        >::empty())
    } else {
        (s, Seq::<SequenceStep>::empty())
    };
    let (s2, e2) = if p.r1 && !s1.st[STATE_R1 as int] {
        let m24 = PointDrive { md1: 125, ..s1.m24 };
        (
            Robot24View { st: s1.st.update(STATE_R1 as int, true), m24 },
            seq![step_spec(OutCommand::Point24(m24), 0)],
        )
    } else if !p.r1 && s1.st[STATE_R1 as int] {
        (Robot24View { st: s1.st.update(STATE_R1 as int, false), ..s1 }, Seq::<
            SequenceStep,
        >::empty())
    } else {
        (s1, Seq::<SequenceStep>::empty())
    };
    let (s3, e3) = if !s2.st[STATE_R2 as int] && !s2.st[STATE_R1 as int] {
        let m24 = PointDrive { md1: 80, ..s2.m24 };
        (Robot24View { m24, ..s2 }, seq![step_spec(OutCommand::Point24(m24), 0)])
    } else {
        (s2, Seq::<SequenceStep>::empty())
    };
    (s3, e1 + e2 + e3)
}

/// One full cycle of this deployment's dispatcher.
pub open spec fn r24_step_spec(s: Robot24View, p: PadState) -> (Robot24View, Seq<SequenceStep>) {
    let (s1, e1) = r24_up_spec(s, p);
    let (s2, e2) = r24_left_pair_spec(s1, p);
    let (s3, e3) = r24_right_pair_spec(s2, p);
    (s3, e1 + e2 + e3)
}

/// Dispatcher of the second deployment's collector robot.
pub struct Robot24Dispatcher {
    pub state: Vec<bool>,
    pub robot2_4_msg: PointDrive,
}

impl View for Robot24Dispatcher {
    type V = Robot24View;

    open spec fn view(&self) -> Robot24View {
        Robot24View { st: self.state@, m24: self.robot2_4_msg }
    }
}

impl Robot24Dispatcher {
    /// Full history array.
    pub open spec fn wf(self) -> bool {
        self.state@.len() == STATE_LEN
    }

    /// Starts with every control released and a zeroed record.
    pub fn new() -> (r: Robot24Dispatcher)
        ensures
            r.wf(),
            r@.st == Seq::new(STATE_LEN as nat, |i: int| false),
            r@.m24 == PointDrive::zeroed(),
    {
        let r = Robot24Dispatcher {
            state: new_dualsense_state(),
            robot2_4_msg: PointDrive::new(),
        };
        proof {
            assert(r@.st =~= Seq::new(STATE_LEN as nat, |i: int| false));
        }
        r
    }

    fn up_block(&mut self, p: &PadState, out: &mut Vec<SequenceStep>)
        requires
            old(self).wf(),
        ensures
            final(self).wf(),
            final(self)@ == r24_up_spec(old(self)@, *p).0,
            final(out)@ == old(out)@ + r24_up_spec(old(self)@, *p).1,
    {
        if p.d_pad_up && !self.state[STATE_D_PAD_UP] {
            self.state.set(STATE_D_PAD_UP, true);
            self.robot2_4_msg.md0 = if !p.cross {
                125
            } else {
                80
            };
            out.push(SequenceStep { cmd: OutCommand::Point24(self.robot2_4_msg), delay_ms: 0 });
        } else if !p.d_pad_up && self.state[STATE_D_PAD_UP] {
            self.state.set(STATE_D_PAD_UP, false);
            out.push(SequenceStep { cmd: OutCommand::Point24(self.robot2_4_msg), delay_ms: 0 });
        }
        proof {
            assert(out@ =~= old(out)@ + r24_up_spec(old(self)@, *p).1);
        }
    }

    fn left_pair_block(&mut self, p: &PadState, out: &mut Vec<SequenceStep>)
        requires
            old(self).wf(),
        ensures
            final(self).wf(),
            final(self)@ == r24_left_pair_spec(old(self)@, *p).0,
            final(out)@ == old(out)@ + r24_left_pair_spec(old(self)@, *p).1,
    {
        if p.l2 && !self.state[STATE_L2] {
            self.state.set(STATE_L2, true);
            self.robot2_4_msg.md3 = 125;
            out.push(SequenceStep { cmd: OutCommand::Point24(self.robot2_4_msg), delay_ms: 0 });
        } else if !p.l2 && self.state[STATE_L2] {
            self.state.set(STATE_L2, false);
        }
        if p.l1 && !self.state[STATE_L1] {
            self.state.set(STATE_L1, true);
            self.robot2_4_msg.md3 = 25;
            out.push(SequenceStep { cmd: OutCommand::Point24(self.robot2_4_msg), delay_ms: 0 });
        } else if !p.l1 && self.state[STATE_L1] {
            self.state.set(STATE_L1, false);
        }
        if !self.state[STATE_L2] && !self.state[STATE_L1] {
            self.robot2_4_msg.md3 = 80;
            out.push(SequenceStep { cmd: OutCommand::Point24(self.robot2_4_msg), delay_ms: 0 });
        }
        proof {
            assert(out@ =~= old(out)@ + r24_left_pair_spec(old(self)@, *p).1);
        }
    }

    fn right_pair_block(&mut self, p: &PadState, out: &mut Vec<SequenceStep>)
        requires
            old(self).wf(),
        ensures
            final(self).wf(),
            final(self)@ == r24_right_pair_spec(old(self)@, *p).0,
            final(out)@ == old(out)@ + r24_right_pair_spec(old(self)@, *p).1,
    {
        if p.r2 && !self.state[STATE_R2] {
            self.state.set(STATE_R2, true);
            self.robot2_4_msg.md1 = 25;
            out.push(SequenceStep { cmd: OutCommand::Point24(self.robot2_4_msg), delay_ms: 0 });
        } else if !p.r2 && self.state[STATE_R2] {
            self.state.set(STATE_R2, false);
        }
        if p.r1 && !self.state[STATE_R1] {
            self.state.set(STATE_R1, true);
            self.robot2_4_msg.md1 = 125;
            out.push(SequenceStep { cmd: OutCommand::Point24(self.robot2_4_msg), delay_ms: 0 });
        } else if !p.r1 && self.state[STATE_R1] {
            self.state.set(STATE_R1, false);
        }
        if !self.state[STATE_R2] && !self.state[STATE_R1] {
            self.robot2_4_msg.md1 = 80;
            out.push(SequenceStep { cmd: OutCommand::Point24(self.robot2_4_msg), delay_ms: 0 });
        }
        proof {
            assert(out@ =~= old(out)@ + r24_right_pair_spec(old(self)@, *p).1);
        }
    }

    /// One input cycle against the snapshot held by `p9n`: the three handler
    /// groups in dispatch order, publications concatenated.
    pub fn step(&mut self, p9n: &PlaystationInterface) -> (out: Vec<SequenceStep>)
        requires
            old(self).wf(),
        ensures
            final(self).wf(),
            final(self)@ == r24_step_spec(
                old(self)@,
                pad_of(p9n.msg.buttons@, p9n.msg.axes@),
            ).0,
            out@ == r24_step_spec(old(self)@, pad_of(p9n.msg.buttons@, p9n.msg.axes@)).1,
    {
        let p = p9n.read_pad();
        let mut out: Vec<SequenceStep> = Vec::new();
        self.up_block(&p, &mut out);
        self.left_pair_block(&p, &mut out);
        self.right_pair_block(&p, &mut out);
        proof {
            assert(out@ =~= r24_step_spec(old(self)@, pad_of(p9n.msg.buttons@, p9n.msg.axes@)).1);
        }
        out
    }
}

} // verus!
