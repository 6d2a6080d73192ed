//! Operations on one account's set of pending nonces.

use std::collections::BTreeSet;
use vstd::prelude::*;
use vstd::std_specs::iter::IteratorSpec;
use crate::laws::law_contiguous_end_is_the_end;
use crate::model::{is_contiguous_end, retained};

verus! {

/// The nonces of `nonces` that are at least `from`, as a set of their own.
pub fn retain_from(nonces: &BTreeSet<u32>, from: u32) -> (kept: BTreeSet<u32>)
    ensures
        kept@ == retained(nonces@, from),
{
    let mut kept: BTreeSet<u32> = BTreeSet::new();
    for n in it: nonces.iter()
        invariant
            it.seq() == nonces.iter().remaining(),
            forall|x: u32|
                kept@.contains(x) <==> x >= from && exists|j: int|
                    0 <= j < it.index() && *it.seq()[j] == x,
    {
        if *n >= from {
            kept.insert(*n);
        }
    }
    proof {
        let seq = nonces.iter().remaining();
        assert(seq.unref().to_set() == nonces@);
        assert forall|x: u32| kept@.contains(x) == retained(nonces@, from).contains(x) by {
            if kept@.contains(x) {
                let j = choose|j: int| 0 <= j < seq.len() && *seq[j] == x;
                assert(seq.unref()[j] == x);
            }
            if nonces@.contains(x) && x >= from {
                let j = choose|j: int| 0 <= j < seq.unref().len() && seq.unref()[j] == x;
                assert(*seq[j] == x);
            }
        }
        assert(kept@ =~= retained(nonces@, from));
    }
    kept
}

/// Follows the unbroken run of pending nonces that starts right after
/// `current`, and returns the nonce at which it stops; `current` itself where
/// the nonce after it is not pending.
pub fn contiguous_end(nonces: &BTreeSet<u32>, current: u32) -> (end: u32)
    ensures
        end == crate::model::contiguous_end(nonces@, current),
        is_contiguous_end(nonces@, current, end),
{
    let mut end: u32 = current;
    while end < u32::MAX && nonces.contains(&(end + 1))
        invariant
            current <= end,
            forall|n: u32| current < n <= end ==> nonces@.contains(n),
        decreases u32::MAX - end,
    {
        end = end + 1;
    }
    proof {
        law_contiguous_end_is_the_end(nonces@, current, end);
    }
    end
}

} // verus!
