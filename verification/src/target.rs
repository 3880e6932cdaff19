//! Target selector: the index of the subsystem that shared controls
//! currently address, advanced modulo the number of configured subsystems on
//! the select control's press-edge.
use vstd::prelude::*;

use vstd::arithmetic::div_mod::lemma_add_mod_noop_right;
use vstd::arithmetic::div_mod::lemma_small_mod;

verus! {

/// Where one advance of the selector lands from index `i` among `n`
/// subsystems.
pub open spec fn advance_spec(i: int, n: int) -> int {
    (i + 1) % n
}

/// Where `k` advances of the selector land from index `i`.
pub open spec fn advance_k(i: int, n: int, k: nat) -> int
    decreases k,
{
    if k == 0 {
        i
    } else {
        advance_spec(advance_k(i, n, (k - 1) as nat), n)
    }
}

/// The currently addressed subsystem: an index kept below the number of
/// configured subsystems.
#[derive(Clone, Copy, PartialEq, Eq, Structural, Debug)]
pub struct TargetIndex {
    pub index: u8,
    pub n: u8,
}

impl TargetIndex {
    /// The index stays inside the configured range.
    pub open spec fn wf(self) -> bool {
        0 < self.n && self.index < self.n
    }

    /// A fresh selector addresses subsystem 0 of `n`.
    pub fn new(n: u8) -> (r: TargetIndex)
        requires
            0 < n,
        ensures
            r.wf(),
            r.index == 0,
            r.n == n,
    {
        TargetIndex { index: 0, n }
    }

    /// Advances to the next subsystem, wrapping past the last one.
    pub fn advance(&mut self)
        requires
            old(self).wf(),
        ensures
            final(self).wf(),
            final(self).n == old(self).n,
            final(self).index == advance_spec(old(self).index as int, old(self).n as int),
    {
        proof {
            vstd::arithmetic::div_mod::lemma_mod_bound(old(self).index + 1, old(self).n as int);
        }
        self.index = (self.index + 1) % self.n;
    }
}

proof fn lemma_advance_k_unrolls(i: int, n: int, k: nat)
    requires
        0 < n,
        0 <= i < n,
    ensures
        advance_k(i, n, k) == (i + k) % n,
    decreases k,
{
    if k == 0 {
        lemma_small_mod(i as nat, n as nat);
    } else {
        lemma_advance_k_unrolls(i, n, (k - 1) as nat);
        lemma_add_mod_noop_right(1, i + k - 1, n);
    }
}

/// The selector cycles exactly through `0 .. n-1`: after `n` press-edges of
/// the select control it is back at its starting index.
pub proof fn lemma_target_index_cycles(i: int, n: int)
    requires
        0 < n,
        0 <= i < n,
    ensures
        advance_k(i, n, n as nat) == i,
        forall|k: nat| 0 <= #[trigger] advance_k(i, n, k) < n,
{
    lemma_advance_k_unrolls(i, n, n as nat);
    vstd::arithmetic::div_mod::lemma_mod_self_0(n);
    lemma_add_mod_noop_right(i, n, n);
    lemma_small_mod(i as nat, n as nat);
    assert forall|k: nat| 0 <= #[trigger] advance_k(i, n, k) < n by {
        lemma_advance_k_unrolls(i, n, k);
        vstd::arithmetic::div_mod::lemma_mod_bound(i + k, n);
    }
}

} // verus!
