//! A counter that starts at zero and only ever grows by one. The arithmetic
//! core is verified here against exclusive access; the handle sharing and
//! the mutual-exclusion guard that serialize concurrent callers live with
//! the embedding program, which funnels every access through these methods.

use vstd::prelude::*;

verus! {

/// A non-negative counter. Exclusive access (`&mut self`) stands for
/// holding the guard: each guarded critical section performs exactly one of
/// the operations below, so the contracts here state what any serialized
/// interleaving of increments and reads can observe.
pub struct SharedCounter {
    value: u64,
}

impl View for SharedCounter {
    type V = nat;

    closed spec fn view(&self) -> nat {
        self.value as nat
    }
}

impl SharedCounter {
    /// Constructs a counter at zero.
    pub fn new() -> (r: SharedCounter)
        ensures
            r@ == 0,
    {
        SharedCounter { value: 0 }
    }

    /// Adds one to the value. No update is lost: the new value is exactly
    /// one more than the value read under the same exclusive access.
    pub fn increment(&mut self)
        requires
            old(self)@ < u64::MAX,
        ensures
            final(self)@ == old(self)@ + 1,
    {
        self.value = self.value + 1;
    }

    /// Returns the current value.
    pub fn read(&self) -> (n: u64)
        ensures
            n as nat == self@,
    {
        self.value
    }
}

/// The value after `n` further increments of a counter standing at `v`.
pub open spec fn after_increments(v: nat, n: nat) -> nat
    decreases n,
{
    if n == 0 {
        v
    } else {
        after_increments(v, (n - 1) as nat) + 1
    }
}

/// No lost updates: `n` increments, each applied under exclusive access as
/// `increment` demands, raise the value by exactly `n`; in particular `n`
/// increments from zero yield exactly `n`.
pub proof fn lemma_increments_accumulate(v: nat, n: nat)
    ensures
        after_increments(v, n) == v + n,
    decreases n,
{
    if n > 0 {
        lemma_increments_accumulate(v, (n - 1) as nat);
    }
}

} // verus!
