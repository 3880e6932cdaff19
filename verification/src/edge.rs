//! Edge detector and the two output idioms built on it.
//!
//! Per logical control a dispatcher keeps the last observed pressed state and
//! classifies the current reading as press-edge, release-edge or no-change.
//! On top of the classification sit the two publishing idioms of the command
//! mappers: toggle-on-press / reset-on-release, which publishes exactly on
//! the two edges, and flip-flop, which alternates an output field between two
//! extremes on each press-edge and stays silent on a release.
use vstd::prelude::*;

verus! {

/// Classification of one control's transition in one cycle.
#[derive(Clone, Copy, PartialEq, Eq, Structural, Debug)]
pub enum EdgeEvent {
    PressEdge,
    ReleaseEdge,
    Unchanged,
}

/// The transition from the last observed state to the current reading.
pub open spec fn edge_of(prev: bool, now: bool) -> EdgeEvent {
    if now && !prev {
        EdgeEvent::PressEdge
    } else if !now && prev {
        EdgeEvent::ReleaseEdge
    } else {
        EdgeEvent::Unchanged
    }
}

/// Classifies one control's current reading against its last observed state.
pub fn edge(prev: bool, now: bool) -> (e: EdgeEvent)
    ensures
        e == edge_of(prev, now),
{
    if now && !prev {
        EdgeEvent::PressEdge
    } else if !now && prev {
        EdgeEvent::ReleaseEdge
    } else {
        EdgeEvent::Unchanged
    }
}

/// The all-released history every dispatcher starts from: one slot per
/// tracked control, all false.
pub fn new_dualsense_state() -> (v: Vec<bool>)
    ensures
        v@.len() == crate::ps5_dualsense::STATE_LEN,
        forall|i: int| 0 <= i < v@.len() ==> v@[i] == false,
{
    let mut v: Vec<bool> = Vec::new();
    let mut n: usize = 0;
    while n < crate::ps5_dualsense::STATE_LEN
        invariant
            v@.len() == n,
            n <= crate::ps5_dualsense::STATE_LEN,
            forall|i: int| 0 <= i < v@.len() ==> v@[i] == false,
        decreases crate::ps5_dualsense::STATE_LEN - n,
    {
        v.push(false);
        n = n + 1;
    }
    v
}

/// A control whose state was just overwritten with its current reading
/// cannot fire a second press-edge: an identical next reading classifies as
/// no-change, and any next reading classifies as no-change or release-edge.
pub proof fn lemma_press_edge_needs_release(prev: bool, now: bool, next: bool)
    ensures
        edge_of(now, now) == EdgeEvent::Unchanged,
        edge_of(prev, now) == EdgeEvent::PressEdge ==> edge_of(now, next)
            != EdgeEvent::PressEdge,
{
}

/// Whether the toggle-on-press / reset-on-release idiom publishes for one
/// transition: it does exactly on the two edges, never on no-change.
pub open spec fn toggle_publishes(prev: bool, now: bool) -> bool {
    edge_of(prev, now) != EdgeEvent::Unchanged
}

/// How often the toggle idiom publishes over a run of readings that starts
/// from last observed state `prev`.
pub open spec fn toggle_publish_count(prev: bool, reads: Seq<bool>) -> nat
    decreases reads.len(),
{
    if reads.len() == 0 {
        0
    } else {
        (if toggle_publishes(prev, reads.first()) {
            1nat
        } else {
            0nat
        }) + toggle_publish_count(reads.first(), reads.drop_first())
    }
}

/// A press followed by `n` held cycles and one release: the readings of the
/// toggle idiom's canonical gesture.
pub open spec fn press_hold_release(n: nat) -> Seq<bool> {
    Seq::new(n + 1, |i: int| true).push(false)
}

proof fn lemma_toggle_held_then_release(k: nat)
    ensures
        toggle_publish_count(true, Seq::new(k, |i: int| true).push(false)) == 1,
    decreases k,
{
    let reads = Seq::new(k, |i: int| true).push(false);
    if k == 0 {
        assert(reads =~= seq![false]);
        assert(toggle_publish_count(false, reads.drop_first()) == 0);
    } else {
        assert(reads.first() == true);
        lemma_toggle_held_then_release((k - 1) as nat);
        assert(reads.drop_first() =~= Seq::new((k - 1) as nat, |i: int| true).push(false));
    }
}

/// Toggle-on-press / reset-on-release: a press, any number of held cycles and
/// a release publish exactly twice — once on the press-edge and once on the
/// release-edge — however long the control is held.
pub proof fn lemma_toggle_two_publishes(n: nat)
    ensures
        toggle_publish_count(false, press_hold_release(n)) == 2,
{
    let reads = press_hold_release(n);
    assert(reads.first() == true);
    assert(toggle_publishes(false, true));
    lemma_toggle_held_then_release(n);
    assert(reads.drop_first() =~= Seq::new(n, |i: int| true).push(false));
}

/// Whether the flip-flop idiom publishes for one transition: only on a
/// press-edge; a release alone publishes nothing.
pub open spec fn flipflop_publishes(prev: bool, now: bool) -> bool {
    edge_of(prev, now) == EdgeEvent::PressEdge
}

/// The value a flip-flop output field takes on its next press-edge, given the
/// field's current value and the channel's two extremes.
pub open spec fn flip_next(v: int, hi: int, lo: int) -> int {
    if v <= 0 {
        hi
    } else {
        lo
    }
}

/// Flip-flop: over two presses the output field alternates between its two
/// extremes (a positive one and a non-positive one), and a release never
/// publishes.
pub proof fn lemma_flipflop_alternates(v: int, hi: int, lo: int, prev: bool)
    requires
        hi > 0,
        lo <= 0,
    ensures
        flip_next(v, hi, lo) == hi ==> flip_next(flip_next(v, hi, lo), hi, lo) == lo,
        flip_next(v, hi, lo) == lo ==> flip_next(flip_next(v, hi, lo), hi, lo) == hi,
        !flipflop_publishes(prev, false),
{
}

} // verus!
