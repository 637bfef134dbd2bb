//! The effect registry: the ordered, never-empty collection of
//! post-processing effects and the index of the one currently applied.
//!
//! The whole state machine is the cyclic `advance` transition: states are
//! the effects, the initial state is the first, and an external gesture
//! moves one step forward, wrapping at the end. Nothing else ever changes
//! the selection.

use vstd::prelude::*;

use vstd::arithmetic::div_mod::{
    lemma_add_mod_noop_right,
    lemma_mod_add_multiples_vanish,
    lemma_small_mod,
};

use crate::post_processing::PostProcessing;

verus! {

/// The index one `advance` step reaches from index `i` in a registry of
/// `k` effects.
pub open spec fn next_index(i: int, k: int) -> int {
    (i + 1) % k
}

/// The index `n` `advance` steps reach from index `i` in a registry of `k`
/// effects.
pub open spec fn index_after(i: int, k: int, n: nat) -> int
    decreases n,
{
    if n == 0 {
        i
    } else {
        next_index(index_after(i, k, (n - 1) as nat), k)
    }
}

/// `advance` called `n` times from index `i` lands on `(i + n) % k`.
pub proof fn lemma_index_after_is_mod(i: int, k: int, n: nat)
    requires
        0 <= i < k,
    ensures
        index_after(i, k, n) == (i + n) % k,
    decreases n,
{
    if n == 0 {
        lemma_small_mod(i as nat, k as nat);
    } else {
        lemma_index_after_is_mod(i, k, (n - 1) as nat);
        lemma_add_mod_noop_right(1, i + (n - 1), k);
    }
}

/// Cyclic closure: `advance` called once per effect returns to the
/// starting index.
pub proof fn lemma_full_cycle(i: int, k: int)
    requires
        0 <= i < k,
    ensures
        index_after(i, k, k as nat) == i,
{
    lemma_index_after_is_mod(i, k, k as nat);
    lemma_mod_add_multiples_vanish(i, k);
    lemma_small_mod(i as nat, k as nat);
}

/// An ordered sequence of effects plus the current index. Non-empty from
/// construction on, and mutated only by `advance`.
pub struct EffectRegistry {
    pub effects: Vec<PostProcessing>,
    pub current: usize,
}

impl EffectRegistry {
    /// A registry is well formed when it holds at least one effect and the
    /// current index points at one of them.
    pub open spec fn wf(self) -> bool {
        self.effects@.len() > 0 && self.current < self.effects@.len()
    }

    /// The effect the current index selects.
    pub open spec fn current_effect(self) -> PostProcessing {
        self.effects@[self.current as int]
    }

    /// Build a registry over `effects`, starting at the first.
    pub fn new(effects: Vec<PostProcessing>) -> (r: EffectRegistry)
        requires
            effects@.len() > 0,
        ensures
            r.effects == effects,
            r.current == 0,
            r.wf(),
    {
        EffectRegistry { effects, current: 0 }
    }

    /// The currently selected effect. Never fails: the registry is
    /// non-empty by construction.
    pub fn current(&self) -> (r: &PostProcessing)
        requires
            self.wf(),
        ensures
            *r == self.current_effect(),
    {
        &self.effects[self.current]
    }

    /// Step the selection forward by one, wrapping past the last effect.
    /// The effects themselves never change.
    pub fn advance(&mut self)
        requires
            old(self).wf(),
        ensures
            final(self).wf(),
            final(self).effects == old(self).effects,
            final(self).current == next_index(
                old(self).current as int,
                old(self).effects@.len() as int,
            ),
    {
        let count: usize = self.effects.len();
        self.current = (self.current + 1) % count;
    }
}

} // verus!
