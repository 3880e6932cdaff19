//! Index bindings for the DualSense controller layout: positions of each
//! logical control inside the raw button and axis arrays of a snapshot, and
//! the slots of the per-control history array.
use vstd::prelude::*;

verus! {

// Axis array indices.
pub const AXES_STICK_LX: usize = 0;
pub const AXES_STICK_LY: usize = 1;
pub const AXES_L2: usize = 2;
pub const AXES_STICK_RX: usize = 3;
pub const AXES_STICK_RY: usize = 4;
pub const AXES_R2: usize = 5;
pub const AXES_DPAD_X: usize = 6;
pub const AXES_DPAD_Y: usize = 7;

// Button array indices.
pub const BUTTONS_CROSS: usize = 0;
pub const BUTTONS_CIRCLE: usize = 1;
pub const BUTTONS_TRIANGLE: usize = 2;
pub const BUTTONS_SQUARE: usize = 3;
pub const BUTTONS_L1: usize = 4;
pub const BUTTONS_R1: usize = 5;
pub const BUTTONS_L2: usize = 6;
pub const BUTTONS_R2: usize = 7;
pub const BUTTONS_SELECT: usize = 8;
pub const BUTTONS_START: usize = 9;
pub const BUTTONS_PS: usize = 10;
pub const BUTTONS_STICK_L_PUSH: usize = 11;
pub const BUTTONS_STICK_R_PUSH: usize = 12;

// Slots of the per-control last-observed-state array kept by a dispatcher.
pub const STATE_SQUARE: usize = 0;
pub const STATE_CIRCLE: usize = 1;
pub const STATE_TRIANGLE: usize = 2;
pub const STATE_CROSS: usize = 3;
pub const STATE_L1: usize = 4;
pub const STATE_L2: usize = 5;
pub const STATE_R1: usize = 6;
pub const STATE_R2: usize = 7;
pub const STATE_D_PAD_UP: usize = 8;
pub const STATE_D_PAD_DOWN: usize = 9;
pub const STATE_D_PAD_LEFT: usize = 10;
pub const STATE_D_PAD_RIGHT: usize = 11;
pub const STATE_START: usize = 12;
pub const STATE_SELECT: usize = 13;
pub const STATE_PS: usize = 14;

/// Number of tracked logical controls (length of the history array).
pub const STATE_LEN: usize = 15;

} // verus!
