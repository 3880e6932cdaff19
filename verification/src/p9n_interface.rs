//! Control snapshot adapter: normalizes the raw positional button/axis arrays
//! of one controller snapshot into named logical controls.
//!
//! Button-backed controls are pressed when their slot holds 1; a snapshot
//! whose arrays are shorter than a control's index degrades to "not pressed"
//! instead of failing. Axis-backed directional controls (the d-pad) derive
//! their pressed state from the strict sign of the axis value, so opposite
//! directions on one axis are mutually exclusive and an axis at rest (zero)
//! presses neither.
use vstd::prelude::*;

use crate::ps5_dualsense::AXES_DPAD_X;
use crate::ps5_dualsense::AXES_DPAD_Y;
use crate::ps5_dualsense::BUTTONS_CIRCLE;
use crate::ps5_dualsense::BUTTONS_CROSS;
use crate::ps5_dualsense::BUTTONS_L1;
use crate::ps5_dualsense::BUTTONS_L2;
use crate::ps5_dualsense::BUTTONS_PS;
use crate::ps5_dualsense::BUTTONS_R1;
use crate::ps5_dualsense::BUTTONS_R2;
use crate::ps5_dualsense::BUTTONS_SELECT;
use crate::ps5_dualsense::BUTTONS_SQUARE;
use crate::ps5_dualsense::BUTTONS_START;
use crate::ps5_dualsense::BUTTONS_TRIANGLE;

verus! {

/// One raw controller snapshot: ordered button flags (1 = pressed) and the
/// sign of each axis value (positive, zero or negative), as delivered once
/// per input cycle. The surrounding process reduces each continuous axis
/// reading to its sign before handing the snapshot over; the dispatch logic
/// only ever compares axes against zero.
pub struct ControlSnapshot {
    pub buttons: Vec<i32>,
    pub axes: Vec<i8>,
}

/// A button-backed control is pressed when its slot exists and holds 1.
pub open spec fn button_pressed(buttons: Seq<i32>, i: int) -> bool {
    0 <= i < buttons.len() && buttons[i] == 1
}

/// An axis-backed direction on the positive side of its axis.
pub open spec fn axis_positive(axes: Seq<i8>, i: int) -> bool {
    0 <= i < axes.len() && axes[i] > 0
}

/// An axis-backed direction on the negative side of its axis.
pub open spec fn axis_negative(axes: Seq<i8>, i: int) -> bool {
    0 <= i < axes.len() && axes[i] < 0
}

/// The instantaneous pressed/released reading of every tracked logical
/// control, taken from one snapshot. Computed once per cycle before any
/// mapping logic runs, so an edge of one control and the instantaneous state
/// of another are read from the same frame.
#[derive(Clone, Copy, PartialEq, Eq, Structural, Debug)]
pub struct PadState {
    pub square: bool,
    pub circle: bool,
    pub triangle: bool,
    pub cross: bool,
    pub l1: bool,
    pub l2: bool,
    pub r1: bool,
    pub r2: bool,
    pub d_pad_up: bool,
    pub d_pad_down: bool,
    pub d_pad_left: bool,
    pub d_pad_right: bool,
    pub start: bool,
    pub select: bool,
    pub ps: bool,
}

/// The reading every control takes from a snapshot.
pub open spec fn pad_of(buttons: Seq<i32>, axes: Seq<i8>) -> PadState {
    PadState {
        square: button_pressed(buttons, BUTTONS_SQUARE as int),
        circle: button_pressed(buttons, BUTTONS_CIRCLE as int),
        triangle: button_pressed(buttons, BUTTONS_TRIANGLE as int),
        cross: button_pressed(buttons, BUTTONS_CROSS as int),
        l1: button_pressed(buttons, BUTTONS_L1 as int),
        l2: button_pressed(buttons, BUTTONS_L2 as int),
        r1: button_pressed(buttons, BUTTONS_R1 as int),
        r2: button_pressed(buttons, BUTTONS_R2 as int),
        d_pad_up: axis_positive(axes, AXES_DPAD_Y as int),
        d_pad_down: axis_negative(axes, AXES_DPAD_Y as int),
        d_pad_left: axis_positive(axes, AXES_DPAD_X as int),
        d_pad_right: axis_negative(axes, AXES_DPAD_X as int),
        start: button_pressed(buttons, BUTTONS_START as int),
        select: button_pressed(buttons, BUTTONS_SELECT as int),
        ps: button_pressed(buttons, BUTTONS_PS as int),
    }
}

/// Named access to the controls of the snapshot it currently holds.
pub struct PlaystationInterface {
    pub msg: ControlSnapshot,
}

impl PlaystationInterface {
    pub fn new(_msg: ControlSnapshot) -> (r: PlaystationInterface)
        ensures
            r.msg.buttons@ == _msg.buttons@,
            r.msg.axes@ == _msg.axes@,
    {
        PlaystationInterface { msg: _msg }
    }

    pub fn set_joy_msg(&mut self, _msg: ControlSnapshot)
        ensures
            final(self).msg.buttons@ == _msg.buttons@,
            final(self).msg.axes@ == _msg.axes@,
    {
        self.msg = _msg;
    }

    fn is_valid_button(&self, button: usize) -> (r: bool)
        ensures
            r == (button < self.msg.buttons@.len()),
    {
        button < self.msg.buttons.len()
    }

    fn is_valid_axes(&self, axes: usize) -> (r: bool)
        ensures
            r == (axes < self.msg.axes@.len()),
    {
        axes < self.msg.axes.len()
    }

    fn button(&self, i: usize) -> (r: bool)
        ensures
            r == button_pressed(self.msg.buttons@, i as int),
    {
        if self.is_valid_button(i) {
            self.msg.buttons[i] == 1
        } else {
            false
        }
    }

    fn axis_pos(&self, i: usize) -> (r: bool)
        ensures
            r == axis_positive(self.msg.axes@, i as int),
    {
        if self.is_valid_axes(i) {
            self.msg.axes[i] > 0
        } else {
            false
        }
    }

    fn axis_neg(&self, i: usize) -> (r: bool)
        ensures
            r == axis_negative(self.msg.axes@, i as int),
    {
        if self.is_valid_axes(i) {
            self.msg.axes[i] < 0
        } else {
            false
        }
    }

    pub fn pressed_start(&self) -> (r: bool)
        ensures
            r == button_pressed(self.msg.buttons@, BUTTONS_START as int),
    {
        self.button(BUTTONS_START)
    }

    pub fn pressed_select(&self) -> (r: bool)
        ensures
            r == button_pressed(self.msg.buttons@, BUTTONS_SELECT as int),
    {
        self.button(BUTTONS_SELECT)
    }

    pub fn pressed_ps(&self) -> (r: bool)
        ensures
            r == button_pressed(self.msg.buttons@, BUTTONS_PS as int),
    {
        self.button(BUTTONS_PS)
    }

    pub fn pressed_circle(&self) -> (r: bool)
        ensures
            r == button_pressed(self.msg.buttons@, BUTTONS_CIRCLE as int),
    {
        self.button(BUTTONS_CIRCLE)
    }

    pub fn pressed_triangle(&self) -> (r: bool)
        ensures
            r == button_pressed(self.msg.buttons@, BUTTONS_TRIANGLE as int),
    {
        self.button(BUTTONS_TRIANGLE)
    }

    pub fn pressed_square(&self) -> (r: bool)
        ensures
            r == button_pressed(self.msg.buttons@, BUTTONS_SQUARE as int),
    {
        self.button(BUTTONS_SQUARE)
    }

    pub fn pressed_cross(&self) -> (r: bool)
        ensures
            r == button_pressed(self.msg.buttons@, BUTTONS_CROSS as int),
    {
        self.button(BUTTONS_CROSS)
    }

    pub fn pressed_l1(&self) -> (r: bool)
        ensures
            r == button_pressed(self.msg.buttons@, BUTTONS_L1 as int),
    {
        self.button(BUTTONS_L1)
    }

    pub fn pressed_r1(&self) -> (r: bool)
        ensures
            r == button_pressed(self.msg.buttons@, BUTTONS_R1 as int),
    {
        self.button(BUTTONS_R1)
    }

    pub fn pressed_l2(&self) -> (r: bool)
        ensures
            r == button_pressed(self.msg.buttons@, BUTTONS_L2 as int),
    {
        self.button(BUTTONS_L2)
    }

    pub fn pressed_r2(&self) -> (r: bool)
        ensures
            r == button_pressed(self.msg.buttons@, BUTTONS_R2 as int),
    {
        self.button(BUTTONS_R2)
    }

    pub fn pressed_dpad_left(&self) -> (r: bool)
        ensures
            r == axis_positive(self.msg.axes@, AXES_DPAD_X as int),
    {
        self.axis_pos(AXES_DPAD_X)
    }

    pub fn pressed_dpad_right(&self) -> (r: bool)
        ensures
            r == axis_negative(self.msg.axes@, AXES_DPAD_X as int),
    {
        self.axis_neg(AXES_DPAD_X)
    }

    pub fn pressed_dpad_up(&self) -> (r: bool)
        ensures
            r == axis_positive(self.msg.axes@, AXES_DPAD_Y as int),
    {
        self.axis_pos(AXES_DPAD_Y)
    }

    pub fn pressed_dpad_down(&self) -> (r: bool)
        ensures
            r == axis_negative(self.msg.axes@, AXES_DPAD_Y as int),
    {
        self.axis_neg(AXES_DPAD_Y)
    }

    /// Evaluates every tracked control against the held snapshot, yielding
    /// the frame the edge detector and the command mappers consume.
    pub fn read_pad(&self) -> (r: PadState)
        ensures
            r == pad_of(self.msg.buttons@, self.msg.axes@),
    {
        PadState {
            square: self.pressed_square(),
            circle: self.pressed_circle(),
            triangle: self.pressed_triangle(),
            cross: self.pressed_cross(),
            l1: self.pressed_l1(),
            l2: self.pressed_l2(),
            r1: self.pressed_r1(),
            r2: self.pressed_r2(),
            d_pad_up: self.pressed_dpad_up(),
            d_pad_down: self.pressed_dpad_down(),
            d_pad_left: self.pressed_dpad_left(),
            d_pad_right: self.pressed_dpad_right(),
            start: self.pressed_start(),
            select: self.pressed_select(),
            ps: self.pressed_ps(),
        }
    }
}

} // verus!
