//! Multiplexed command mapper: one gamepad drives five subsystems.
//!
//! The select control's press-edge advances a cycling target index; every
//! other mapping reads that index at dispatch time, so a selector change and
//! a command edge in the same cycle use the post-increment index. Shared
//! controls then route to the solenoid driver, the motor driver or one of
//! four multi-joint drive records, under the toggle-on-press /
//! reset-on-release and flip-flop idioms.
use vstd::prelude::*;

use crate::edge::new_dualsense_state;
use crate::p9n_interface::pad_of;
use crate::p9n_interface::PadState;
use crate::p9n_interface::PlaystationInterface;
use crate::ps5_dualsense::STATE_D_PAD_LEFT;
use crate::ps5_dualsense::STATE_D_PAD_RIGHT;
use crate::ps5_dualsense::STATE_D_PAD_UP;
use crate::ps5_dualsense::STATE_L2;
use crate::ps5_dualsense::STATE_R2;
use crate::ps5_dualsense::STATE_SELECT;
use crate::ps5_dualsense::STATE_SQUARE;
use crate::ps5_dualsense::STATE_TRIANGLE;
use crate::ps5_dualsense::STATE_CIRCLE;
use crate::ps5_dualsense::STATE_LEN;
use crate::records::MdLibMsg;
use crate::records::OutCommand;
use crate::records::PointDrive;
use crate::records::SdLibMsg;
use crate::records::SequenceStep;
use crate::records::step_spec;
use crate::target::advance_spec;
use crate::target::TargetIndex;

verus! {

/// Number of subsystems this deployment multiplexes over.
pub const MUX_SUBSYSTEMS: u8 = 5;

/// Mathematical state of the multiplexed dispatcher: the per-control history,
/// the target index and the persistent copy of every outgoing record.
#[verifier::ext_equal]
pub struct MuxView {
    pub st: Seq<bool>,
    pub robot_num: int,
    pub md: MdLibMsg,
    pub sd: SdLibMsg,
    pub m21: PointDrive,
    pub m22: PointDrive,
    pub m23: PointDrive,
    pub m24: PointDrive,
}

/// Select: a press-edge advances the target index; the release-edge only
/// rearms the latch. Nothing is published.
pub open spec fn mux_select_spec(s: MuxView, p: PadState) -> MuxView {
    if p.select && !s.st[STATE_SELECT as int] {
        MuxView {
            st: s.st.update(STATE_SELECT as int, true),
            robot_num: advance_spec(s.robot_num, MUX_SUBSYSTEMS as int),
            ..s
        }
    } else if !p.select && s.st[STATE_SELECT as int] {
        MuxView { st: s.st.update(STATE_SELECT as int, false), ..s }
    } else {
        s
    }
}

/// D-pad left: while held (every cycle, not only the edge) subsystem 0 gets
/// solenoid port 0 at full power and subsystem 2 gets drive channel 0 at a
/// magnitude whose sign the cross modifier picks; the release-edge resets the
/// same field to zero and publishes again.
pub open spec fn mux_left_spec(s: MuxView, p: PadState) -> (MuxView, Seq<SequenceStep>) {
    if p.d_pad_left {
        let s1 = MuxView { st: s.st.update(STATE_D_PAD_LEFT as int, true), ..s };
        if s.robot_num == 0 {
            let sd = SdLibMsg { address: 0x00, port: 0, power1: 1000, power2: s.sd.power2 };
            (MuxView { sd, ..s1 }, seq![step_spec(OutCommand::Sd(sd), 0)])
        } else if s.robot_num == 2 {
            let m22 = PointDrive {
                md0: if !p.cross {
                    1000
                } else {
                    (-1000) as i16
                },
                ..s.m22
            };
            (MuxView { m22, ..s1 }, seq![step_spec(OutCommand::Point22(m22), 0)])
        } else {
            (s1, seq![])
        }
    } else if s.st[STATE_D_PAD_LEFT as int] {
        let s1 = MuxView { st: s.st.update(STATE_D_PAD_LEFT as int, false), ..s };
        if s.robot_num == 0 {
            let sd = SdLibMsg { address: 0x00, port: 0, power1: 0, power2: s.sd.power2 };
            (MuxView { sd, ..s1 }, seq![step_spec(OutCommand::Sd(sd), 0)])
        } else if s.robot_num == 2 {
            let m22 = PointDrive { md0: 0, ..s.m22 };
            (MuxView { m22, ..s1 }, seq![step_spec(OutCommand::Point22(m22), 0)])
        } else {
            (s1, seq![])
        }
    } else {
        (s, seq![])
    }
}

/// D-pad right: press-edge only (latched); subsystem 0 gets solenoid port 1,
/// subsystem 2 gets drive channel 1; the release-edge zeroes the field.
pub open spec fn mux_right_spec(s: MuxView, p: PadState) -> (MuxView, Seq<SequenceStep>) {
    if p.d_pad_right && !s.st[STATE_D_PAD_RIGHT as int] {
        let s1 = MuxView { st: s.st.update(STATE_D_PAD_RIGHT as int, true), ..s };
        if s.robot_num == 0 {
            let sd = SdLibMsg { address: 0x00, port: 1, power1: 1000, power2: s.sd.power2 };
            (MuxView { sd, ..s1 }, seq![step_spec(OutCommand::Sd(sd), 0)])
        } else if s.robot_num == 2 {
            let m22 = PointDrive {
                md1: if !p.cross {
                    1000
                } else {
                    (-1000) as i16
                },
                ..s.m22
            };
            (MuxView { m22, ..s1 }, seq![step_spec(OutCommand::Point22(m22), 0)])
        } else {
            (s1, seq![])
        }
    } else if !p.d_pad_right && s.st[STATE_D_PAD_RIGHT as int] {
        let s1 = MuxView { st: s.st.update(STATE_D_PAD_RIGHT as int, false), ..s };
        if s.robot_num == 0 {
            let sd = SdLibMsg { address: 0x00, port: 1, power1: 0, power2: s.sd.power2 };
            (MuxView { sd, ..s1 }, seq![step_spec(OutCommand::Sd(sd), 0)])
        } else if s.robot_num == 2 {
            let m22 = PointDrive { md1: 0, ..s.m22 };
            (MuxView { m22, ..s1 }, seq![step_spec(OutCommand::Point22(m22), 0)])
        } else {
            (s1, seq![])
        }
    } else {
        (s, seq![])
    }
}

/// Square: flip-flop on subsystem 2's drive channel 3 — each press-edge
/// toggles between the two extremes, the release-edge only rearms the latch.
pub open spec fn mux_square_spec(s: MuxView, p: PadState) -> (MuxView, Seq<SequenceStep>) {
    if p.square && !s.st[STATE_SQUARE as int] {
        let s1 = MuxView { st: s.st.update(STATE_SQUARE as int, true), ..s };
        if s.robot_num == 2 {
            let m22 = PointDrive {
                md3: if s.m22.md3 <= 0 {
                    127
                } else {
                    (-128) as i8
                },
                ..s.m22
            };
            (MuxView { m22, ..s1 }, seq![step_spec(OutCommand::Point22(m22), 0)])
        } else {
            (s1, seq![])
        }
    } else if !p.square && s.st[STATE_SQUARE as int] {
        (MuxView { st: s.st.update(STATE_SQUARE as int, false), ..s }, seq![])
    } else {
        (s, seq![])
    }
}

/// Triangle: flip-flop on drive channel 5 of subsystem 1 or 2.
pub open spec fn mux_triangle_spec(s: MuxView, p: PadState) -> (MuxView, Seq<SequenceStep>) {
    if p.triangle && !s.st[STATE_TRIANGLE as int] {
        let s1 = MuxView { st: s.st.update(STATE_TRIANGLE as int, true), ..s };
        if s.robot_num == 1 {
            let m21 = PointDrive {
                md5: if s.m21.md5 <= 0 {
                    127
                } else {
                    (-128) as i8
                },
                ..s.m21
            };
            (MuxView { m21, ..s1 }, seq![step_spec(OutCommand::Point21(m21), 0)])
        } else if s.robot_num == 2 {
            let m22 = PointDrive {
                md5: if s.m22.md5 <= 0 {
                    127
                } else {
                    (-128) as i8
                },
                ..s.m22
            };
            (MuxView { m22, ..s1 }, seq![step_spec(OutCommand::Point22(m22), 0)])
        } else {
            (s1, seq![])
        }
    } else if !p.triangle && s.st[STATE_TRIANGLE as int] {
        (MuxView { st: s.st.update(STATE_TRIANGLE as int, false), ..s }, seq![])
    } else {
        (s, seq![])
    }
}

/// Circle: flip-flop on subsystem 2's drive channel 4.
pub open spec fn mux_circle_spec(s: MuxView, p: PadState) -> (MuxView, Seq<SequenceStep>) {
    if p.circle && !s.st[STATE_CIRCLE as int] {
        let s1 = MuxView { st: s.st.update(STATE_CIRCLE as int, true), ..s };
        if s.robot_num == 2 {
            let m22 = PointDrive {
                md4: if s.m22.md4 <= 0 {
                    127
                } else {
                    (-128) as i8
                },
                ..s.m22
            };
            (MuxView { m22, ..s1 }, seq![step_spec(OutCommand::Point22(m22), 0)])
        } else {
            (s1, seq![])
        }
    } else if !p.circle && s.st[STATE_CIRCLE as int] {
        (MuxView { st: s.st.update(STATE_CIRCLE as int, false), ..s }, seq![])
    } else {
        (s, seq![])
    }
}

/// D-pad up: subsystem 0 publishes the motor record once per press (edge
/// inside the held branch); subsystems 1-3 re-publish drive channel 5 every
/// held cycle with the cross modifier picking the sign. The release-edge
/// zeroes the moved channel — and for subsystem 0 also opens solenoid port 0.
pub open spec fn mux_up_spec(s: MuxView, p: PadState) -> (MuxView, Seq<SequenceStep>) {
    if p.d_pad_up {
        if s.robot_num == 0 {
            if !s.st[STATE_D_PAD_UP as int] {
                let md = MdLibMsg { address: 0x05, mode: 2, phase: p.cross, power: 1000 };
                (
                    MuxView { st: s.st.update(STATE_D_PAD_UP as int, true), md, ..s },
                    seq![step_spec(OutCommand::Md(md), 0)],
                )
            } else {
                (MuxView { st: s.st.update(STATE_D_PAD_UP as int, true), ..s }, seq![])
            }
        } else if s.robot_num == 1 {
            let m21 = PointDrive {
                md5: if !p.cross {
                    127
                } else {
                    (-128) as i8
                },
                ..s.m21
            };
            (
                MuxView { st: s.st.update(STATE_D_PAD_UP as int, true), m21, ..s },
                seq![step_spec(OutCommand::Point21(m21), 0)],
            )
        } else if s.robot_num == 2 {
            let m22 = PointDrive {
                md5: if !p.cross {
                    127
                } else {
                    (-128) as i8
                },
                ..s.m22
            };
            (
                MuxView { st: s.st.update(STATE_D_PAD_UP as int, true), m22, ..s },
                seq![step_spec(OutCommand::Point22(m22), 0)],
            )
        } else if s.robot_num == 3 {
            let m23 = PointDrive {
                md5: if !p.cross {
                    127
                } else {
                    (-128) as i8
                },
                ..s.m23
            };
            (
                MuxView { st: s.st.update(STATE_D_PAD_UP as int, true), m23, ..s },
                seq![step_spec(OutCommand::Point23(m23), 0)],
            )
        } else {
            (MuxView { st: s.st.update(STATE_D_PAD_UP as int, true), ..s }, seq![])
        }
    } else if s.st[STATE_D_PAD_UP as int] {
        let s1 = MuxView { st: s.st.update(STATE_D_PAD_UP as int, false), ..s };
        if s.robot_num == 0 {
            let md = MdLibMsg { address: 0x05, mode: 2, phase: false, power: 0 };
            let sd = SdLibMsg { address: 0x05, port: 0, power1: 1000, power2: s.sd.power2 };
            (
                MuxView { md, sd, ..s1 },
                seq![step_spec(OutCommand::Md(md), 0), step_spec(OutCommand::Sd(sd), 0)],
            )
        } else if s.robot_num == 1 {
            let m21 = PointDrive { md2: 0, ..s.m21 };
            (MuxView { m21, ..s1 }, seq![step_spec(OutCommand::Point21(m21), 0)])
        } else if s.robot_num == 2 {
            let m22 = PointDrive { md2: 0, ..s.m22 };
            (MuxView { m22, ..s1 }, seq![step_spec(OutCommand::Point22(m22), 0)])
        } else if s.robot_num == 3 {
            let m23 = PointDrive { md2: 0, md3: 0, ..s.m23 };
            (MuxView { m23, ..s1 }, seq![step_spec(OutCommand::Point23(m23), 0)])
        } else {
            (s1, seq![])
        }
    } else {
        (s, seq![])
    }
}

/// L2: toggle-on-press / reset-on-release on subsystem 3's drive channel 4,
/// re-published every held cycle whatever the target index says.
pub open spec fn mux_l2_spec(s: MuxView, p: PadState) -> (MuxView, Seq<SequenceStep>) {
    if p.l2 {
        let m23 = PointDrive {
            md4: if !p.cross {
                127
            } else {
                (-128) as i8
            },
            ..s.m23
        };
        (
            MuxView { st: s.st.update(STATE_L2 as int, true), m23, ..s },
            seq![step_spec(OutCommand::Point23(m23), 0)],
        )
    } else if s.st[STATE_L2 as int] {
        let m23 = PointDrive { md4: 0, ..s.m23 };
        (
            MuxView { st: s.st.update(STATE_L2 as int, false), m23, ..s },
            seq![step_spec(OutCommand::Point23(m23), 0)],
        )
    } else {
        (s, seq![])
    }
}

/// R2: like L2, on subsystem 3's drive channel 5.
pub open spec fn mux_r2_spec(s: MuxView, p: PadState) -> (MuxView, Seq<SequenceStep>) {
    if p.r2 {
        let m23 = PointDrive {
            md5: if !p.cross {
                127
            } else {
                (-128) as i8
            },
            ..s.m23
        };
        (
            MuxView { st: s.st.update(STATE_R2 as int, true), m23, ..s },
            seq![step_spec(OutCommand::Point23(m23), 0)],
        )
    } else if s.st[STATE_R2 as int] {
        let m23 = PointDrive { md5: 0, ..s.m23 };
        (
            MuxView { st: s.st.update(STATE_R2 as int, false), m23, ..s },
            seq![step_spec(OutCommand::Point23(m23), 0)],
        )
    } else {
        (s, seq![])
    }
}

/// One full cycle of the multiplexed dispatcher: selector first, then every
/// control's mapping in a fixed order, publications concatenated in that
/// order.
pub open spec fn mux_step_spec(s: MuxView, p: PadState) -> (MuxView, Seq<SequenceStep>) {
    let s1 = mux_select_spec(s, p);
    let (s2, e2) = mux_left_spec(s1, p);
    let (s3, e3) = mux_right_spec(s2, p);
    let (s4, e4) = mux_square_spec(s3, p);
    let (s5, e5) = mux_triangle_spec(s4, p);
    let (s6, e6) = mux_circle_spec(s5, p);
    let (s7, e7) = mux_up_spec(s6, p);
    let (s8, e8) = mux_l2_spec(s7, p);
    let (s9, e9) = mux_r2_spec(s8, p);
    (s9, e2 + e3 + e4 + e5 + e6 + e7 + e8 + e9)
}

/// The d-pad-right mapping follows the toggle-on-press / reset-on-release
/// idiom exactly: for the subsystems it addresses it publishes precisely on
/// the two edges and never on a no-change cycle — so over a press, any
/// number of held cycles and a release it publishes twice, as
/// `crate::edge::lemma_toggle_two_publishes` states of the idiom — and every
/// cycle overwrites its latch with the current reading.
pub proof fn lemma_right_follows_toggle_idiom(s: MuxView, p: PadState)
    requires
        s.st.len() == STATE_LEN,
    ensures
        (s.robot_num == 0 || s.robot_num == 2) ==> mux_right_spec(s, p).1.len() == (
        if crate::edge::toggle_publishes(s.st[STATE_D_PAD_RIGHT as int], p.d_pad_right) {
            1int
        } else {
            0int
        }),
        mux_right_spec(s, p).0.st[STATE_D_PAD_RIGHT as int] == p.d_pad_right,
{
}

/// The triangle mapping follows the flip-flop idiom exactly: it publishes
/// only on a press-edge — a release alone publishes nothing — and for the
/// subsystem it addresses each press-edge swings the output field to the
/// extreme opposite its current side, as `crate::edge::flip_next` defines.
pub proof fn lemma_triangle_follows_flipflop_idiom(s: MuxView, p: PadState)
    requires
        s.st.len() == STATE_LEN,
    ensures
        mux_triangle_spec(s, p).1.len() != 0 ==> crate::edge::flipflop_publishes(
            s.st[STATE_TRIANGLE as int],
            p.triangle,
        ),
        !p.triangle ==> mux_triangle_spec(s, p).1.len() == 0,
        s.robot_num == 1 && crate::edge::flipflop_publishes(
            s.st[STATE_TRIANGLE as int],
            p.triangle,
        ) ==> mux_triangle_spec(s, p).0.m21.md5 == crate::edge::flip_next(
            s.m21.md5 as int,
            127,
            -128,
        ),
{
}

/// No edge-guarded mapping double-fires on identical consecutive frames:
/// once a handler has overwritten its latch with the current reading, the
/// same frame again classifies as no-change and publishes nothing.
pub proof fn lemma_no_double_fire_on_identical_frames(s: MuxView, p: PadState)
    requires
        s.st.len() == STATE_LEN,
    ensures
        mux_right_spec(mux_right_spec(s, p).0, p).1.len() == 0,
        mux_square_spec(mux_square_spec(s, p).0, p).1.len() == 0,
        mux_triangle_spec(mux_triangle_spec(s, p).0, p).1.len() == 0,
        mux_circle_spec(mux_circle_spec(s, p).0, p).1.len() == 0,
{
}

/// The selector advances once per press, not once per cycle while held: a
/// second cycle on an identical snapshot finds the select slot latched and
/// leaves the target index where it is.
pub proof fn lemma_select_advances_once(s: MuxView, p: PadState)
    requires
        s.st.len() == STATE_LEN,
    ensures
        mux_select_spec(mux_select_spec(s, p), p).robot_num == mux_select_spec(s, p).robot_num,
{
}

/// The multiplexed dispatcher: per-control history, cycling target index and
/// the persistent outgoing records.
pub struct MuxDispatcher {
    pub state: Vec<bool>,
    pub robot: TargetIndex,
    pub md_msg: MdLibMsg,
    pub sd_msg: SdLibMsg,
    pub robot2_1_msg: PointDrive,
    pub robot2_2_msg: PointDrive,
    pub robot2_3_msg: PointDrive,
    pub robot2_4_msg: PointDrive,
}

impl View for MuxDispatcher {
    type V = MuxView;

    open spec fn view(&self) -> MuxView {
        MuxView {
            st: self.state@,
            robot_num: self.robot.index as int,
            md: self.md_msg,
            sd: self.sd_msg,
            m21: self.robot2_1_msg,
            m22: self.robot2_2_msg,
            m23: self.robot2_3_msg,
            m24: self.robot2_4_msg,
        }
    }
}

impl MuxDispatcher {
    /// Full history array, and a target index among the five subsystems.
    pub open spec fn wf(self) -> bool {
        &&& self.state@.len() == STATE_LEN
        &&& self.robot.wf()
        &&& self.robot.n == MUX_SUBSYSTEMS
    }

    /// Starts with every control released, subsystem 0 addressed and zeroed
    /// records.
    pub fn new() -> (r: MuxDispatcher)
        ensures
            r.wf(),
            r@.st == Seq::new(STATE_LEN as nat, |i: int| false),
            r@.robot_num == 0,
            r@.md == MdLibMsg::zeroed(),
            r@.sd == SdLibMsg::zeroed(),
            r@.m21 == PointDrive::zeroed(),
            r@.m22 == PointDrive::zeroed(),
            r@.m23 == PointDrive::zeroed(),
            r@.m24 == PointDrive::zeroed(),
    {
        let r = MuxDispatcher {
            state: new_dualsense_state(),
            robot: TargetIndex::new(MUX_SUBSYSTEMS),
            md_msg: MdLibMsg::new(),
            sd_msg: SdLibMsg::new(),
            robot2_1_msg: PointDrive::new(),
            robot2_2_msg: PointDrive::new(),
            robot2_3_msg: PointDrive::new(),
            robot2_4_msg: PointDrive::new(),
        };
        proof {
            assert(r@.st =~= Seq::new(STATE_LEN as nat, |i: int| false));
        }
        r
    }

    fn mux_select(&mut self, p: &PadState)
        requires
            old(self).wf(),
        ensures
            final(self).wf(),
            final(self)@ == mux_select_spec(old(self)@, *p),
    {
        if p.select && !self.state[STATE_SELECT] {
            self.state.set(STATE_SELECT, true);
            self.robot.advance();
        } else if !p.select && self.state[STATE_SELECT] {
            self.state.set(STATE_SELECT, false);
        }
    }

    fn mux_left(&mut self, p: &PadState, out: &mut Vec<SequenceStep>)
        requires
            old(self).wf(),
        ensures
            final(self).wf(),
            final(self)@ == mux_left_spec(old(self)@, *p).0,
            final(out)@ == old(out)@ + mux_left_spec(old(self)@, *p).1,
    {
        if p.d_pad_left {
            self.state.set(STATE_D_PAD_LEFT, true);
            if self.robot.index == 0 {
                self.sd_msg.address = 0x00;
                self.sd_msg.port = 0;
                self.sd_msg.power1 = 1000;
                out.push(SequenceStep { cmd: OutCommand::Sd(self.sd_msg), delay_ms: 0 });
            } else if self.robot.index == 2 {
                self.robot2_2_msg.md0 = if !p.cross {
                    1000
                } else {
                    (-1000) as i16
                };
                out.push(SequenceStep { cmd: OutCommand::Point22(self.robot2_2_msg), delay_ms: 0 });
            }
        } else if self.state[STATE_D_PAD_LEFT] {
            self.state.set(STATE_D_PAD_LEFT, false);
            if self.robot.index == 0 {
                self.sd_msg.address = 0x00;
                self.sd_msg.port = 0;
                self.sd_msg.power1 = 0;
                out.push(SequenceStep { cmd: OutCommand::Sd(self.sd_msg), delay_ms: 0 });
            } else if self.robot.index == 2 {
                self.robot2_2_msg.md0 = 0;
                out.push(SequenceStep { cmd: OutCommand::Point22(self.robot2_2_msg), delay_ms: 0 });
            }
        }
        proof {
            assert(out@ =~= old(out)@ + mux_left_spec(old(self)@, *p).1);
        }
    }

    fn mux_right(&mut self, p: &PadState, out: &mut Vec<SequenceStep>)
        requires
            old(self).wf(),
        ensures
            final(self).wf(),
            final(self)@ == mux_right_spec(old(self)@, *p).0,
            final(out)@ == old(out)@ + mux_right_spec(old(self)@, *p).1,
    {
        if p.d_pad_right && !self.state[STATE_D_PAD_RIGHT] {
            self.state.set(STATE_D_PAD_RIGHT, true);
            if self.robot.index == 0 {
                self.sd_msg.address = 0x00;
                self.sd_msg.port = 1;
                self.sd_msg.power1 = 1000;
                out.push(SequenceStep { cmd: OutCommand::Sd(self.sd_msg), delay_ms: 0 });
            } else if self.robot.index == 2 {
                self.robot2_2_msg.md1 = if !p.cross {
                    1000
                } else {
                    (-1000) as i16
                };
                out.push(SequenceStep { cmd: OutCommand::Point22(self.robot2_2_msg), delay_ms: 0 });
            }
        } else if !p.d_pad_right && self.state[STATE_D_PAD_RIGHT] {
            self.state.set(STATE_D_PAD_RIGHT, false);
            if self.robot.index == 0 {
                self.sd_msg.address = 0x00;
                self.sd_msg.port = 1;
                self.sd_msg.power1 = 0;
                out.push(SequenceStep { cmd: OutCommand::Sd(self.sd_msg), delay_ms: 0 });
            } else if self.robot.index == 2 {
                self.robot2_2_msg.md1 = 0;
                out.push(SequenceStep { cmd: OutCommand::Point22(self.robot2_2_msg), delay_ms: 0 });
            }
        }
        proof {
            assert(out@ =~= old(out)@ + mux_right_spec(old(self)@, *p).1);
        }
    }

    fn mux_square(&mut self, p: &PadState, out: &mut Vec<SequenceStep>)
        requires
            old(self).wf(),
        ensures
            final(self).wf(),
            final(self)@ == mux_square_spec(old(self)@, *p).0,
            final(out)@ == old(out)@ + mux_square_spec(old(self)@, *p).1,
    {
        if p.square && !self.state[STATE_SQUARE] {
            self.state.set(STATE_SQUARE, true);
            if self.robot.index == 2 {
                self.robot2_2_msg.md3 = if self.robot2_2_msg.md3 <= 0 {
                    127
                } else {
                    (-128) as i8
                };
                out.push(SequenceStep { cmd: OutCommand::Point22(self.robot2_2_msg), delay_ms: 0 });
            }
        } else if !p.square && self.state[STATE_SQUARE] {
            self.state.set(STATE_SQUARE, false);
        }
        proof {
            assert(out@ =~= old(out)@ + mux_square_spec(old(self)@, *p).1);
        }
    }

    fn mux_triangle(&mut self, p: &PadState, out: &mut Vec<SequenceStep>)
        requires
            old(self).wf(),
        ensures
            final(self).wf(),
            final(self)@ == mux_triangle_spec(old(self)@, *p).0,
            final(out)@ == old(out)@ + mux_triangle_spec(old(self)@, *p).1,
    {
        if p.triangle && !self.state[STATE_TRIANGLE] {
            self.state.set(STATE_TRIANGLE, true);
            if self.robot.index == 1 {
                self.robot2_1_msg.md5 = if self.robot2_1_msg.md5 <= 0 {
                    127
                } else {
                    (-128) as i8
                };
                out.push(SequenceStep { cmd: OutCommand::Point21(self.robot2_1_msg), delay_ms: 0 });
            } else if self.robot.index == 2 {
                self.robot2_2_msg.md5 = if self.robot2_2_msg.md5 <= 0 {
                    127
                } else {
                    (-128) as i8
                };
                out.push(SequenceStep { cmd: OutCommand::Point22(self.robot2_2_msg), delay_ms: 0 });
            }
        } else if !p.triangle && self.state[STATE_TRIANGLE] {
            self.state.set(STATE_TRIANGLE, false);
        }
        proof {
            assert(out@ =~= old(out)@ + mux_triangle_spec(old(self)@, *p).1);
        }
    }

    fn mux_circle(&mut self, p: &PadState, out: &mut Vec<SequenceStep>)
        requires
            old(self).wf(),
        ensures
            final(self).wf(),
            final(self)@ == mux_circle_spec(old(self)@, *p).0,
            final(out)@ == old(out)@ + mux_circle_spec(old(self)@, *p).1,
    {
        if p.circle && !self.state[STATE_CIRCLE] {
            self.state.set(STATE_CIRCLE, true);
            if self.robot.index == 2 {
                self.robot2_2_msg.md4 = if self.robot2_2_msg.md4 <= 0 {
                    127
                } else {
                    (-128) as i8
                };
                out.push(SequenceStep { cmd: OutCommand::Point22(self.robot2_2_msg), delay_ms: 0 });
            }
        } else if !p.circle && self.state[STATE_CIRCLE] {
            self.state.set(STATE_CIRCLE, false);
        }
        proof {
            assert(out@ =~= old(out)@ + mux_circle_spec(old(self)@, *p).1);
        }
    }

    fn mux_up(&mut self, p: &PadState, out: &mut Vec<SequenceStep>)
        requires
            old(self).wf(),
        ensures
            final(self).wf(),
            final(self)@ == mux_up_spec(old(self)@, *p).0,
            final(out)@ == old(out)@ + mux_up_spec(old(self)@, *p).1,
    {
        if p.d_pad_up {
            if self.robot.index == 0 {
                if !self.state[STATE_D_PAD_UP] {
                    self.md_msg.address = 0x05;
                    self.md_msg.mode = 2;
                    self.md_msg.phase = p.cross;
                    self.md_msg.power = 1000;
                    out.push(SequenceStep { cmd: OutCommand::Md(self.md_msg), delay_ms: 0 });
                }
            } else if self.robot.index == 1 {
                self.robot2_1_msg.md5 = if !p.cross {
                    127
                } else {
                    (-128) as i8
                };
                out.push(SequenceStep { cmd: OutCommand::Point21(self.robot2_1_msg), delay_ms: 0 });
            } else if self.robot.index == 2 {
                self.robot2_2_msg.md5 = if !p.cross {
                    127
                } else {
                    (-128) as i8
                };
                out.push(SequenceStep { cmd: OutCommand::Point22(self.robot2_2_msg), delay_ms: 0 });
            } else if self.robot.index == 3 {
                self.robot2_3_msg.md5 = if !p.cross {
                    127
                } else {
                    (-128) as i8
                };
                out.push(SequenceStep { cmd: OutCommand::Point23(self.robot2_3_msg), delay_ms: 0 });
            }
            self.state.set(STATE_D_PAD_UP, true);
        } else if self.state[STATE_D_PAD_UP] {
            self.state.set(STATE_D_PAD_UP, false);
            if self.robot.index == 0 {
                self.md_msg.address = 0x05;
                self.md_msg.mode = 2;
                self.md_msg.phase = false;
                self.md_msg.power = 0;
                out.push(SequenceStep { cmd: OutCommand::Md(self.md_msg), delay_ms: 0 });
                self.sd_msg.address = 0x05;
                self.sd_msg.port = 0;
                self.sd_msg.power1 = 1000;
                out.push(SequenceStep { cmd: OutCommand::Sd(self.sd_msg), delay_ms: 0 });
            } else if self.robot.index == 1 {
                self.robot2_1_msg.md2 = 0;
                out.push(SequenceStep { cmd: OutCommand::Point21(self.robot2_1_msg), delay_ms: 0 });
            } else if self.robot.index == 2 {
                self.robot2_2_msg.md2 = 0;
                out.push(SequenceStep { cmd: OutCommand::Point22(self.robot2_2_msg), delay_ms: 0 });
            } else if self.robot.index == 3 {
                self.robot2_3_msg.md2 = 0;
                self.robot2_3_msg.md3 = 0;
                out.push(SequenceStep { cmd: OutCommand::Point23(self.robot2_3_msg), delay_ms: 0 });
            }
        }
        proof {
            assert(out@ =~= old(out)@ + mux_up_spec(old(self)@, *p).1);
        }
    }

    fn mux_l2(&mut self, p: &PadState, out: &mut Vec<SequenceStep>)
        requires
            old(self).wf(),
        ensures
            final(self).wf(),
            final(self)@ == mux_l2_spec(old(self)@, *p).0,
            final(out)@ == old(out)@ + mux_l2_spec(old(self)@, *p).1,
    {
        if p.l2 {
            self.state.set(STATE_L2, true);
            self.robot2_3_msg.md4 = if !p.cross {
                127
            } else {
                (-128) as i8
            };
            out.push(SequenceStep { cmd: OutCommand::Point23(self.robot2_3_msg), delay_ms: 0 });
        } else if self.state[STATE_L2] {
            self.state.set(STATE_L2, false);
            self.robot2_3_msg.md4 = 0;
            out.push(SequenceStep { cmd: OutCommand::Point23(self.robot2_3_msg), delay_ms: 0 });
        }
        proof {
            assert(out@ =~= old(out)@ + mux_l2_spec(old(self)@, *p).1);
        }
    }

    fn mux_r2(&mut self, p: &PadState, out: &mut Vec<SequenceStep>)
        requires
            old(self).wf(),
        ensures
            final(self).wf(),
            final(self)@ == mux_r2_spec(old(self)@, *p).0,
            final(out)@ == old(out)@ + mux_r2_spec(old(self)@, *p).1,
    {
        if p.r2 {
            self.state.set(STATE_R2, true);
            self.robot2_3_msg.md5 = if !p.cross {
                127
            } else {
                (-128) as i8
            };
            out.push(SequenceStep { cmd: OutCommand::Point23(self.robot2_3_msg), delay_ms: 0 });
        } else if self.state[STATE_R2] {
            self.state.set(STATE_R2, false);
            self.robot2_3_msg.md5 = 0;
            out.push(SequenceStep { cmd: OutCommand::Point23(self.robot2_3_msg), delay_ms: 0 });
        }
        proof {
            assert(out@ =~= old(out)@ + mux_r2_spec(old(self)@, *p).1);
        }
    }

    /// One input cycle: reads every control from the snapshot held by `p9n`,
    /// advances the selector on the select control's press-edge, maps every
    /// other control through its idiom, and returns the publications of this
    /// cycle in dispatch order.
    pub fn step(&mut self, p9n: &PlaystationInterface) -> (out: Vec<SequenceStep>)
        requires
            old(self).wf(),
        ensures
            final(self).wf(),
            final(self)@ == mux_step_spec(
                old(self)@,
                pad_of(p9n.msg.buttons@, p9n.msg.axes@),
            ).0,
            out@ == mux_step_spec(old(self)@, pad_of(p9n.msg.buttons@, p9n.msg.axes@)).1,
    {
        let p = p9n.read_pad();
        let mut out: Vec<SequenceStep> = Vec::new();
        self.mux_select(&p);
        self.mux_left(&p, &mut out);
        self.mux_right(&p, &mut out);
        self.mux_square(&p, &mut out);
        self.mux_triangle(&p, &mut out);
        self.mux_circle(&p, &mut out);
        self.mux_up(&p, &mut out);
        self.mux_l2(&p, &mut out);
        self.mux_r2(&p, &mut out);
        proof {
            assert(out@ =~= mux_step_spec(old(self)@, pad_of(p9n.msg.buttons@, p9n.msg.axes@)).1);
        }
        out
    }
}

} // verus!
