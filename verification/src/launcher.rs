//! Dispatch table of the launcher robot: pose shortcuts, solenoid and motor
//! toggles, and three choreographed launch/load sequences.
//!
//! The compound actions are triggered by a press-edge conjunction (a trigger
//! control together with triangle) guarded by the trigger's own latch, so
//! each fires exactly once per press. Each comes out as an ordered list of
//! (command, post-delay) steps; the surrounding process publishes a step,
//! blocks for its delay, then goes on, and examines no new snapshot until the
//! list is done — so a sequence cannot re-trigger itself mid-run.
use vstd::prelude::*;

use crate::edge::new_dualsense_state;
use crate::p9n_interface::pad_of;
use crate::p9n_interface::PadState;
use crate::p9n_interface::PlaystationInterface;
use crate::ps5_dualsense::STATE_CIRCLE;
use crate::ps5_dualsense::STATE_CROSS;
use crate::ps5_dualsense::STATE_D_PAD_DOWN;
use crate::ps5_dualsense::STATE_D_PAD_RIGHT;
use crate::ps5_dualsense::STATE_D_PAD_UP;
use crate::ps5_dualsense::STATE_L1;
use crate::ps5_dualsense::STATE_LEN;
use crate::ps5_dualsense::STATE_R1;
use crate::ps5_dualsense::STATE_R2;
use crate::ps5_dualsense::STATE_SQUARE;
use crate::ps5_dualsense::STATE_START;
use crate::records::step_spec;
use crate::records::MdLibMsg;
use crate::records::OutCommand;
use crate::records::PoseGoal;
use crate::records::SdLibMsg;
use crate::records::SequenceStep;
use crate::records::SmdLibMsg;

verus! {

/// Pose goal at the coordinate origin, shared by the "home left" and "home
/// right" shortcuts.
pub open spec fn origin_pose() -> PoseGoal {
    PoseGoal { x: 0, y: 0, z: 0 }
}

/// Pose goal of the paired robot's station.
pub open spec fn station_pose() -> PoseGoal {
    PoseGoal { x: 1, y: (-1) as i32, z: 0 }
}

/// Mathematical state of the launcher dispatcher: control history, the
/// persistent records and the exhaust solenoid's remembered power.
#[verifier::ext_equal]
pub struct Robot1View {
    pub st: Seq<bool>,
    pub md: MdLibMsg,
    pub sd: SdLibMsg,
    pub smd: SmdLibMsg,
    pub exhaust: int,
}

/// Start, cross, circle, square: each press-edge publishes one pose goal.
pub open spec fn r1_pose_spec(s: Robot1View, p: PadState) -> (Robot1View, Seq<SequenceStep>) {
    let (st1, e1) = if p.start && !s.st[STATE_START as int] {
        (
            s.st.update(STATE_START as int, true),
            seq![step_spec(OutCommand::Pose(station_pose()), 0)],
        )
    } else if !p.start && s.st[STATE_START as int] {
        (s.st.update(STATE_START as int, false), Seq::<SequenceStep>::empty())
    } else {
        (s.st, Seq::<SequenceStep>::empty())
    };
    let (st2, e2) = if p.cross && !st1[STATE_CROSS as int] {
        (
            st1.update(STATE_CROSS as int, true),
            seq![step_spec(OutCommand::Pose(origin_pose()), 0)],
        )
    } else if !p.cross && st1[STATE_CROSS as int] {
        (st1.update(STATE_CROSS as int, false), Seq::<SequenceStep>::empty())
    } else {
        (st1, Seq::<SequenceStep>::empty())
    };
    let (st3, e3) = if p.circle && !st2[STATE_CIRCLE as int] {
        (
            st2.update(STATE_CIRCLE as int, true),
            seq![step_spec(OutCommand::Pose(station_pose()), 0)],
        )
    } else if !p.circle && st2[STATE_CIRCLE as int] {
        (st2.update(STATE_CIRCLE as int, false), Seq::<SequenceStep>::empty())
    } else {
        (st2, Seq::<SequenceStep>::empty())
    };
    let (st4, e4) = if p.square && !st3[STATE_SQUARE as int] {
        (
            st3.update(STATE_SQUARE as int, true),
            seq![step_spec(OutCommand::Pose(origin_pose()), 0)],
        )
    } else if !p.square && st3[STATE_SQUARE as int] {
        (st3.update(STATE_SQUARE as int, false), Seq::<SequenceStep>::empty())
    } else {
        (st3, Seq::<SequenceStep>::empty())
    };
    (Robot1View { st: st4, ..s }, e1 + e2 + e3 + e4)
}

/// D-pad right: press-edge opens solenoid port 1; the release-edge closes it
/// and then also re-publishes port 0 with the zeroed exhaust power.
pub open spec fn r1_right_spec(s: Robot1View, p: PadState) -> (Robot1View, Seq<SequenceStep>) {
    if p.d_pad_right && !s.st[STATE_D_PAD_RIGHT as int] {
        let sd = SdLibMsg { address: 0x00, port: 1, power1: 1000, power2: s.sd.power2 };
        (
            Robot1View { st: s.st.update(STATE_D_PAD_RIGHT as int, true), sd, ..s },
            seq![step_spec(OutCommand::Sd(sd), 0)],
        )
    } else if !p.d_pad_right && s.st[STATE_D_PAD_RIGHT as int] {
        let sd1 = SdLibMsg { address: 0x00, port: 1, power1: 0, power2: s.sd.power2 };
        let sd2 = SdLibMsg { address: 0x00, port: 0, power1: 0, power2: s.sd.power2 };
        (
            Robot1View {
                st: s.st.update(STATE_D_PAD_RIGHT as int, false),
                sd: sd2,
                exhaust: 0,
                ..s
            },
            seq![step_spec(OutCommand::Sd(sd1), 0), step_spec(OutCommand::Sd(sd2), 0)],
        )
    } else {
        (s, seq![])
    }
}

/// D-pad up: every held cycle re-publishes the motor record at full power.
pub open spec fn r1_up_spec(s: Robot1View, p: PadState) -> (Robot1View, Seq<SequenceStep>) {
    if p.d_pad_up {
        let md = MdLibMsg { address: 0x05, mode: 5, phase: false, power: 1000 };
        (
            Robot1View { st: s.st.update(STATE_D_PAD_UP as int, true), md, ..s },
            seq![step_spec(OutCommand::Md(md), 0)],
        )
    } else {
        (s, seq![])
    }
}

/// D-pad down: toggle-on-press / reset-on-release on solenoid port 0 of the
/// lift driver.
pub open spec fn r1_down_spec(s: Robot1View, p: PadState) -> (Robot1View, Seq<SequenceStep>) {
    if p.d_pad_down && !s.st[STATE_D_PAD_DOWN as int] {
        let sd = SdLibMsg { address: 0x05, port: 0, power1: 1000, power2: s.sd.power2 };
        (
            Robot1View { st: s.st.update(STATE_D_PAD_DOWN as int, true), sd, ..s },
            seq![step_spec(OutCommand::Sd(sd), 0)],
        )
    } else if !p.d_pad_down && s.st[STATE_D_PAD_DOWN as int] {
        let sd = SdLibMsg { address: 0x05, port: 0, power1: 0, power2: s.sd.power2 };
        (
            Robot1View { st: s.st.update(STATE_D_PAD_DOWN as int, false), sd, ..s },
            seq![step_spec(OutCommand::Sd(sd), 0)],
        )
    } else {
        (s, seq![])
    }
}

/// Launch sequence (r1 + triangle, latched on r1): open the hatch servo, wait,
/// fire the main valve, wait, close the valve, re-home the servo.
pub open spec fn r1_launch_spec(s: Robot1View, p: PadState) -> (Robot1View, Seq<SequenceStep>) {
    if p.r1 && p.triangle && !s.st[STATE_R1 as int] {
        let smd1 = SmdLibMsg { address: 6, port: 1, mode: 1, angle: 180 };
        let sd1 = SdLibMsg { address: 0, port: 1, power1: 1000, power2: s.sd.power2 };
        let sd2 = SdLibMsg { address: 0, port: 1, power1: 0, power2: s.sd.power2 };
        let smd2 = SmdLibMsg { address: 6, port: 1, mode: 1, angle: 90 };
        (
            Robot1View { st: s.st.update(STATE_R1 as int, true), sd: sd2, smd: smd2, ..s },
            seq![
                step_spec(OutCommand::Smd(smd1), 1000),
                step_spec(OutCommand::Sd(sd1), 500),
                step_spec(OutCommand::Sd(sd2), 0),
                step_spec(OutCommand::Smd(smd2), 0),
            ],
        )
    } else if !p.r1 && s.st[STATE_R1 as int] {
        (Robot1View { st: s.st.update(STATE_R1 as int, false), ..s }, seq![])
    } else {
        (s, seq![])
    }
}

/// Load sequence (l1 + triangle, latched on l1): home the hatch servo, run
/// both loader channels, wait, stop them.
pub open spec fn r1_load_spec(s: Robot1View, p: PadState) -> (Robot1View, Seq<SequenceStep>) {
    if p.l1 && p.triangle && !s.st[STATE_L1 as int] {
        let smd = SmdLibMsg { address: 6, port: 1, mode: 1, angle: 90 };
        let sd1 = SdLibMsg { address: 1, port: s.sd.port, power1: 1000, power2: 1000 };
        let sd2 = SdLibMsg { address: 1, port: s.sd.port, power1: 0, power2: 0 };
        (
            Robot1View { st: s.st.update(STATE_L1 as int, true), sd: sd2, smd, ..s },
            seq![
                step_spec(OutCommand::Smd(smd), 0),
                step_spec(OutCommand::Sd(sd1), 3000),
                step_spec(OutCommand::Sd(sd2), 0),
            ],
        )
    } else if !p.l1 && s.st[STATE_L1 as int] {
        (Robot1View { st: s.st.update(STATE_L1 as int, false), ..s }, seq![])
    } else {
        (s, seq![])
    }
}

/// Second launch sequence (r2 + triangle, latched on r2): pulse the hatch
/// servo open and shut, then fire and close the main valve.
pub open spec fn r1_launch2_spec(s: Robot1View, p: PadState) -> (Robot1View, Seq<SequenceStep>) {
    if p.r2 && p.triangle && !s.st[STATE_R2 as int] {
        let smd1 = SmdLibMsg { address: 6, port: 1, mode: 1, angle: 180 };
        let smd2 = SmdLibMsg { address: 6, port: 1, mode: 1, angle: 90 };
        let sd1 = SdLibMsg { address: 0, port: 1, power1: 1000, power2: s.sd.power2 };
        let sd2 = SdLibMsg { address: 0, port: 1, power1: 0, power2: s.sd.power2 };
        (
            Robot1View { st: s.st.update(STATE_R2 as int, true), sd: sd2, smd: smd2, ..s },
            seq![
                step_spec(OutCommand::Smd(smd1), 400),
                step_spec(OutCommand::Smd(smd2), 600),
                step_spec(OutCommand::Sd(sd1), 500),
                step_spec(OutCommand::Sd(sd2), 0),
            ],
        )
    } else if !p.r2 && s.st[STATE_R2 as int] {
        (Robot1View { st: s.st.update(STATE_R2 as int, false), ..s }, seq![])
    } else {
        (s, seq![])
    }
}

/// Each compound action fires exactly once per press of its conjunction:
/// the trigger's latch is set when the sequence comes out, and an identical
/// next frame — the conjunction still held — produces no steps at all.
pub proof fn lemma_sequences_fire_once_per_press(s: Robot1View, p: PadState)
    requires
        s.st.len() == STATE_LEN,
    ensures
        r1_launch_spec(r1_launch_spec(s, p).0, p).1.len() == 0,
        r1_load_spec(r1_load_spec(s, p).0, p).1.len() == 0,
        r1_launch2_spec(r1_launch2_spec(s, p).0, p).1.len() == 0,
{
}

/// One full cycle of the launcher dispatcher, handlers in dispatch order,
/// publications and sequence steps concatenated in that order.
pub open spec fn r1_step_spec(s: Robot1View, p: PadState) -> (Robot1View, Seq<SequenceStep>) {
    let (s1, e1) = r1_pose_spec(s, p);
    let (s2, e2) = r1_right_spec(s1, p);
    let (s3, e3) = r1_up_spec(s2, p);
    let (s4, e4) = r1_down_spec(s3, p);
    let (s5, e5) = r1_launch_spec(s4, p);
    let (s6, e6) = r1_load_spec(s5, p);
    let (s7, e7) = r1_launch2_spec(s6, p);
    (s7, e1 + e2 + e3 + e4 + e5 + e6 + e7)
}

/// The launcher robot's dispatcher.
pub struct Robot1Dispatcher {
    pub state: Vec<bool>,
    pub md_msg: MdLibMsg,
    pub sd_msg: SdLibMsg,
    pub smd_msg: SmdLibMsg,
    pub exhaust_solenoid_power: i16,
}

impl View for Robot1Dispatcher {
    type V = Robot1View;

    open spec fn view(&self) -> Robot1View {
        Robot1View {
            st: self.state@,
            md: self.md_msg,
            sd: self.sd_msg,
            smd: self.smd_msg,
            exhaust: self.exhaust_solenoid_power as int,
        }
    }
}

impl Robot1Dispatcher {
    /// Full history array.
    pub open spec fn wf(self) -> bool {
        self.state@.len() == STATE_LEN
    }

    /// Starts with every control released and zeroed records.
    pub fn new() -> (r: Robot1Dispatcher)
        ensures
            r.wf(),
            r@.st == Seq::new(STATE_LEN as nat, |i: int| false),
            r@.md == MdLibMsg::zeroed(),
            r@.sd == SdLibMsg::zeroed(),
            r@.smd == SmdLibMsg::zeroed(),
            r@.exhaust == 0,
    {
        let r = Robot1Dispatcher {
            state: new_dualsense_state(),
            md_msg: MdLibMsg::new(),
            sd_msg: SdLibMsg::new(),
            smd_msg: SmdLibMsg::new(),
            exhaust_solenoid_power: 0,
        };
        proof {
            assert(r@.st =~= Seq::new(STATE_LEN as nat, |i: int| false));
        }
        r
    }

    #[verifier::rlimit(100)]
    fn pose_block(&mut self, p: &PadState, out: &mut Vec<SequenceStep>)
        requires
            old(self).wf(),
        ensures
            final(self).wf(),
            final(self)@ == r1_pose_spec(old(self)@, *p).0,
            final(out)@ == old(out)@ + r1_pose_spec(old(self)@, *p).1,
    {
        if p.start && !self.state[STATE_START] {
            self.state.set(STATE_START, true);
            out.push(SequenceStep {
                cmd: OutCommand::Pose(PoseGoal { x: 1, y: -1, z: 0 }),
                delay_ms: 0,
            });
        } else if !p.start && self.state[STATE_START] {
            self.state.set(STATE_START, false);
        }
        if p.cross && !self.state[STATE_CROSS] {
            self.state.set(STATE_CROSS, true);
            out.push(SequenceStep {
                cmd: OutCommand::Pose(PoseGoal { x: 0, y: 0, z: 0 }),
                delay_ms: 0,
            });
        } else if !p.cross && self.state[STATE_CROSS] {
            self.state.set(STATE_CROSS, false);
        }
        if p.circle && !self.state[STATE_CIRCLE] {
            self.state.set(STATE_CIRCLE, true);
            out.push(SequenceStep {
                cmd: OutCommand::Pose(PoseGoal { x: 1, y: -1, z: 0 }),
                delay_ms: 0,
            });
        } else if !p.circle && self.state[STATE_CIRCLE] {
            self.state.set(STATE_CIRCLE, false);
        }
        if p.square && !self.state[STATE_SQUARE] {
            self.state.set(STATE_SQUARE, true);
            out.push(SequenceStep {
                cmd: OutCommand::Pose(PoseGoal { x: 0, y: 0, z: 0 }),
                delay_ms: 0,
            });
        } else if !p.square && self.state[STATE_SQUARE] {
            self.state.set(STATE_SQUARE, false);
        }
        proof {
            assert(out@ =~= old(out)@ + r1_pose_spec(old(self)@, *p).1);
        }
    }

    fn right_block(&mut self, p: &PadState, out: &mut Vec<SequenceStep>)
        requires
            old(self).wf(),
        ensures
            final(self).wf(),
            final(self)@ == r1_right_spec(old(self)@, *p).0,
            final(out)@ == old(out)@ + r1_right_spec(old(self)@, *p).1,
    {
        if p.d_pad_right && !self.state[STATE_D_PAD_RIGHT] {
            self.state.set(STATE_D_PAD_RIGHT, true);
            self.sd_msg.address = 0x00;
            self.sd_msg.port = 1;
            self.sd_msg.power1 = 1000;
            out.push(SequenceStep { cmd: OutCommand::Sd(self.sd_msg), delay_ms: 0 });
        } else if !p.d_pad_right && self.state[STATE_D_PAD_RIGHT] {
            self.state.set(STATE_D_PAD_RIGHT, false);
            self.sd_msg.address = 0x00;
            self.sd_msg.port = 1;
            self.sd_msg.power1 = 0;
            out.push(SequenceStep { cmd: OutCommand::Sd(self.sd_msg), delay_ms: 0 });
            self.sd_msg.port = 0;
            self.exhaust_solenoid_power = 0;
            self.sd_msg.power1 = self.exhaust_solenoid_power;
            out.push(SequenceStep { cmd: OutCommand::Sd(self.sd_msg), delay_ms: 0 });
        }
        proof {
            assert(out@ =~= old(out)@ + r1_right_spec(old(self)@, *p).1);
        }
    }

    fn up_down_block(&mut self, p: &PadState, out: &mut Vec<SequenceStep>)
        requires
            old(self).wf(),
        ensures
            final(self).wf(),
            final(self)@ == r1_down_spec(r1_up_spec(old(self)@, *p).0, *p).0,
            final(out)@ == old(out)@ + r1_up_spec(old(self)@, *p).1 + r1_down_spec(
                r1_up_spec(old(self)@, *p).0,
                *p,
            ).1,
    {
        if p.d_pad_up {
            self.state.set(STATE_D_PAD_UP, true);
            self.md_msg.address = 0x05;
            self.md_msg.mode = 5;
            self.md_msg.phase = false;
            self.md_msg.power = 1000;
            out.push(SequenceStep { cmd: OutCommand::Md(self.md_msg), delay_ms: 0 });
        }
        if p.d_pad_down && !self.state[STATE_D_PAD_DOWN] {
            self.state.set(STATE_D_PAD_DOWN, true);
            self.sd_msg.address = 0x05;
            self.sd_msg.port = 0;
            self.sd_msg.power1 = 1000;
            out.push(SequenceStep { cmd: OutCommand::Sd(self.sd_msg), delay_ms: 0 });
        } else if !p.d_pad_down && self.state[STATE_D_PAD_DOWN] {
            self.state.set(STATE_D_PAD_DOWN, false);
            self.sd_msg.address = 0x05;
            self.sd_msg.port = 0;
            self.sd_msg.power1 = 0;
            out.push(SequenceStep { cmd: OutCommand::Sd(self.sd_msg), delay_ms: 0 });
        }
        proof {
            assert(out@ =~= old(out)@ + r1_up_spec(old(self)@, *p).1 + r1_down_spec(
                r1_up_spec(old(self)@, *p).0,
                *p,
            ).1);
        }
    }

    fn launch_block(&mut self, p: &PadState, out: &mut Vec<SequenceStep>)
        requires
            old(self).wf(),
        ensures
            final(self).wf(),
            final(self)@ == r1_launch_spec(old(self)@, *p).0,
            final(out)@ == old(out)@ + r1_launch_spec(old(self)@, *p).1,
    {
        if p.r1 && p.triangle && !self.state[STATE_R1] {
            self.state.set(STATE_R1, true);
            self.smd_msg.address = 6;
            self.smd_msg.port = 1;
            self.smd_msg.mode = 1;
            self.smd_msg.angle = 180;
            out.push(SequenceStep { cmd: OutCommand::Smd(self.smd_msg), delay_ms: 1000 });
            self.sd_msg.address = 0;
            self.sd_msg.port = 1;
            self.sd_msg.power1 = 1000;
            out.push(SequenceStep { cmd: OutCommand::Sd(self.sd_msg), delay_ms: 500 });
            self.sd_msg.address = 0;
            self.sd_msg.port = 1;
            self.sd_msg.power1 = 0;
            out.push(SequenceStep { cmd: OutCommand::Sd(self.sd_msg), delay_ms: 0 });
            self.smd_msg.address = 6;
            self.smd_msg.port = 1;
            self.smd_msg.mode = 1;
            self.smd_msg.angle = 90;
            out.push(SequenceStep { cmd: OutCommand::Smd(self.smd_msg), delay_ms: 0 });
        } else if !p.r1 && self.state[STATE_R1] {
            self.state.set(STATE_R1, false);
        }
        proof {
            assert(out@ =~= old(out)@ + r1_launch_spec(old(self)@, *p).1);
        }
    }

    fn load_block(&mut self, p: &PadState, out: &mut Vec<SequenceStep>)
        requires
            old(self).wf(),
        ensures
            final(self).wf(),
            final(self)@ == r1_load_spec(old(self)@, *p).0,
            final(out)@ == old(out)@ + r1_load_spec(old(self)@, *p).1,
    {
        if p.l1 && p.triangle && !self.state[STATE_L1] {
            self.state.set(STATE_L1, true);
            self.smd_msg.address = 6;
            self.smd_msg.port = 1;
            self.smd_msg.mode = 1;
            self.smd_msg.angle = 90;
            out.push(SequenceStep { cmd: OutCommand::Smd(self.smd_msg), delay_ms: 0 });
            self.sd_msg.address = 1;
            self.sd_msg.power1 = 1000;
            self.sd_msg.address = 1;
            self.sd_msg.power2 = 1000;
            out.push(SequenceStep { cmd: OutCommand::Sd(self.sd_msg), delay_ms: 3000 });
            self.sd_msg.address = 1;
            self.sd_msg.power1 = 0;
            self.sd_msg.address = 1;
            self.sd_msg.power2 = 0;
            out.push(SequenceStep { cmd: OutCommand::Sd(self.sd_msg), delay_ms: 0 });
        } else if !p.l1 && self.state[STATE_L1] {
            self.state.set(STATE_L1, false);
        }
        proof {
            assert(out@ =~= old(out)@ + r1_load_spec(old(self)@, *p).1);
        }
    }

    fn launch2_block(&mut self, p: &PadState, out: &mut Vec<SequenceStep>)
        requires
            old(self).wf(),
        ensures
            final(self).wf(),
            final(self)@ == r1_launch2_spec(old(self)@, *p).0,
            final(out)@ == old(out)@ + r1_launch2_spec(old(self)@, *p).1,
    {
        if p.r2 && p.triangle && !self.state[STATE_R2] {
            self.state.set(STATE_R2, true);
            self.smd_msg.address = 6;
            self.smd_msg.port = 1;
            self.smd_msg.mode = 1;
            self.smd_msg.angle = 180;
            out.push(SequenceStep { cmd: OutCommand::Smd(self.smd_msg), delay_ms: 400 });
            self.smd_msg.address = 6;
            self.smd_msg.port = 1;
            self.smd_msg.mode = 1;
            self.smd_msg.angle = 90;
            out.push(SequenceStep { cmd: OutCommand::Smd(self.smd_msg), delay_ms: 600 });
            self.sd_msg.address = 0;
            self.sd_msg.port = 1;
            self.sd_msg.power1 = 1000;
            out.push(SequenceStep { cmd: OutCommand::Sd(self.sd_msg), delay_ms: 500 });
            self.sd_msg.address = 0;
            self.sd_msg.port = 1;
            self.sd_msg.power1 = 0;
            out.push(SequenceStep { cmd: OutCommand::Sd(self.sd_msg), delay_ms: 0 });
        } else if !p.r2 && self.state[STATE_R2] {
            self.state.set(STATE_R2, false);
        }
        proof {
            assert(out@ =~= old(out)@ + r1_launch2_spec(old(self)@, *p).1);
        }
    }

    /// One input cycle of the launcher dispatcher against the snapshot held
    /// by `p9n`: runs every handler in dispatch order and returns this
    /// cycle's publications and sequence steps, in the order the surrounding
    /// process must publish (and, for a timed step, sleep) through them.
    pub fn step(&mut self, p9n: &PlaystationInterface) -> (out: Vec<SequenceStep>)
        requires
            old(self).wf(),
        ensures
            final(self).wf(),
            final(self)@ == r1_step_spec(
                old(self)@,
                pad_of(p9n.msg.buttons@, p9n.msg.axes@),
            ).0,
            out@ == r1_step_spec(old(self)@, pad_of(p9n.msg.buttons@, p9n.msg.axes@)).1,
    {
        let p = p9n.read_pad();
        let mut out: Vec<SequenceStep> = Vec::new();
        self.pose_block(&p, &mut out);
        self.right_block(&p, &mut out);
        self.up_down_block(&p, &mut out);
        self.launch_block(&p, &mut out);
        self.load_block(&p, &mut out);
        self.launch2_block(&p, &mut out);
        proof {
            assert(out@ =~= r1_step_spec(old(self)@, pad_of(p9n.msg.buttons@, p9n.msg.axes@)).1);
        }
        out
    }
}

} // verus!
