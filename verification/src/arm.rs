//! Bounded accumulators for servo/arm angle channels.
//!
//! A channel's running value is a signed integer pinned to the closed range
//! `[ARM_MIN, ARM_MAX]`: every update stores `clamp(current + delta)` back and
//! returns it. Two command-mapping policies drive such a channel: a relative
//! mode that nudges the value by one per cycle while a control is held
//! (`arm_mode0`), and an absolute mode that jumps to a fixed extreme on a
//! press and another on the release (`arm_mode1`).
use vstd::prelude::*;

use crate::p9n_interface::button_pressed;
use crate::p9n_interface::PlaystationInterface;
use crate::ps5_dualsense::BUTTONS_CROSS;

verus! {

/// Lower bound of an arm angle channel.
pub const ARM_MIN: i32 = 25;
/// Upper bound of an arm angle channel.
pub const ARM_MAX: i32 = 125;

/// What one accumulator update stores: the sum pinned to `[ARM_MIN, ARM_MAX]`.
pub open spec fn clamp_arm(v: int) -> int {
    if v > ARM_MAX as int {
        ARM_MAX as int
    } else if v < ARM_MIN as int {
        ARM_MIN as int
    } else {
        v
    }
}

/// Adds `target` to the channel value behind `arm_angle`, pins the sum to
/// `[ARM_MIN, ARM_MAX]`, stores it back and returns it. A `target` of zero is
/// a valid "re-publish the current value" update.
pub fn set_arm_angle(arm_angle: &mut i32, target: i32) -> (r: i8)
    requires
        ARM_MIN <= *old(arm_angle) <= ARM_MAX,
        i32::MIN <= *old(arm_angle) + target <= i32::MAX,
    ensures
        *final(arm_angle) == clamp_arm(*old(arm_angle) + target),
        ARM_MIN <= *final(arm_angle) <= ARM_MAX,
        r == *final(arm_angle),
{
    if (*arm_angle + target) > ARM_MAX {
        *arm_angle = ARM_MAX;
    } else if (*arm_angle + target) < ARM_MIN {
        *arm_angle = ARM_MIN;
    } else {
        *arm_angle += target;
    }
    *arm_angle as i8
}

/// One independently actuated joint/valve channel: a running value pinned to
/// `[ARM_MIN, ARM_MAX]`.
pub struct ChannelAccumulator {
    pub value: i32,
}

impl ChannelAccumulator {
    /// The channel value never leaves its clamp range.
    pub open spec fn wf(self) -> bool {
        ARM_MIN <= self.value <= ARM_MAX
    }

    /// A fresh channel rests at the lower bound.
    pub fn new() -> (r: ChannelAccumulator)
        ensures
            r.wf(),
            r.value == ARM_MIN,
    {
        ChannelAccumulator { value: ARM_MIN }
    }

    /// Integrates `delta` into the channel: stores `clamp(value + delta)` and
    /// returns the stored value. A `delta` of zero re-reads the current value.
    pub fn apply(&mut self, delta: i32) -> (r: i8)
        requires
            old(self).wf(),
            i32::MIN <= old(self).value + delta <= i32::MAX,
        ensures
            final(self).wf(),
            final(self).value == clamp_arm(old(self).value + delta),
            r == final(self).value,
    {
        set_arm_angle(&mut self.value, delta)
    }
}

/// A value already at a bound is pinned there: pushing further in the same
/// direction never moves it, no matter how often the update repeats.
pub proof fn lemma_apply_pinned_at_bounds(v: int, d: int)
    ensures
        v == ARM_MAX && d >= 0 ==> clamp_arm(v + d) == ARM_MAX,
        v == ARM_MIN && d <= 0 ==> clamp_arm(v + d) == ARM_MIN,
{
}

/// The channel value after `k` updates of the same delta.
pub open spec fn apply_n(v: int, d: int, k: nat) -> int
    decreases k,
{
    if k == 0 {
        v
    } else {
        clamp_arm(apply_n(v, d, (k - 1) as nat) + d)
    }
}

/// Updates at the boundary are idempotent: however often a non-negative
/// delta is applied at the upper bound, or a non-positive one at the lower
/// bound, the stored value does not move.
pub proof fn lemma_apply_repeated_pinned(d: int, k: nat)
    ensures
        d >= 0 ==> apply_n(ARM_MAX as int, d, k) == ARM_MAX as int,
        d <= 0 ==> apply_n(ARM_MIN as int, d, k) == ARM_MIN as int,
    decreases k,
{
    if k > 0 {
        lemma_apply_repeated_pinned(d, (k - 1) as nat);
    }
}

/// What the relative ("nudge while held") mapping policy answers for one
/// channel: while the control is held, a step of one per cycle whose sign the
/// reverse modifier picks; on the release-edge a zero step, which re-publishes
/// the unchanged value; otherwise no update at all.
pub open spec fn arm_mode0_result(pressed: bool, prev: bool, reverse: bool) -> int {
    if pressed {
        if !reverse {
            1
        } else {
            -1
        }
    } else if prev {
        0
    } else {
        -2
    }
}

/// Relative arm policy for one channel: decides the accumulator step from the
/// control's current reading, its last observed state and the instantaneous
/// reverse modifier (the cross button of `p9n`'s snapshot), and overwrites
/// the last observed state with the current reading. A result of -2 means
/// "no update this cycle".
pub fn arm_mode0(
    p9n: &PlaystationInterface,
    p9n_pressed: bool,
    dualsense_state: &mut Vec<bool>,
    button: usize,
) -> (r: i32)
    requires
        button < old(dualsense_state)@.len(),
    ensures
        final(dualsense_state)@ == old(dualsense_state)@.update(button as int, p9n_pressed),
        r == arm_mode0_result(
            p9n_pressed,
            old(dualsense_state)@[button as int],
            button_pressed(p9n.msg.buttons@, BUTTONS_CROSS as int),
        ),
{
    if p9n_pressed {
        dualsense_state.set(button, true);
        return if !p9n.pressed_cross() {
            1
        } else {
            -1
        };
    } else if !p9n_pressed && dualsense_state[button] {
        dualsense_state.set(button, false);
        return 0;
    }
    proof {
        assert(old(dualsense_state)@.update(button as int, p9n_pressed) =~= old(
            dualsense_state,
        )@);
    }
    -2
}

/// What the absolute ("jump to an extreme") mapping policy answers for one
/// channel: the upper target on any held cycle, the lower target on the
/// release-edge, and no update otherwise.
pub open spec fn arm_mode1_result(pressed: bool, prev: bool) -> int {
    if pressed {
        125
    } else if prev {
        75
    } else {
        -2
    }
}

/// Absolute arm policy for one channel: a held control pins the channel to
/// the upper target, its release drops it to the lower one, and the
/// control's last observed state is overwritten with the current reading. A
/// result of -2 means "no update this cycle".
pub fn arm_mode1(p9n_pressed: bool, dualsense_state: &mut Vec<bool>, button: usize) -> (r:
    isize)
    requires
        button < old(dualsense_state)@.len(),
    ensures
        final(dualsense_state)@ == old(dualsense_state)@.update(button as int, p9n_pressed),
        r == arm_mode1_result(p9n_pressed, old(dualsense_state)@[button as int]),
{
    let arm_angle: isize = if p9n_pressed {
        dualsense_state.set(button, true);
        125
    } else if !p9n_pressed && dualsense_state[button] {
        dualsense_state.set(button, false);
        75
    } else {
        proof {
            assert(old(dualsense_state)@.update(button as int, p9n_pressed) =~= old(
                dualsense_state,
            )@);
        }
        return -2;
    };
    arm_angle
}

/// The pulse-width unit that stands for a servo angle in degrees.
pub open spec fn degree_to_pulsewidth_spec(degree: int) -> int {
    (5 * degree) / 9 + 25
}

/// Converts a servo angle in degrees to the pulse-width unit the servo
/// driver expects.
pub fn calc_degree_to_pulsewidth(degree: u16) -> (r: u8)
    requires
        degree <= 414,
    ensures
        r == degree_to_pulsewidth_spec(degree as int),
{
    (((5 * degree) / 9) + 25) as u8
}

} // verus!
