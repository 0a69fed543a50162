//! Randomness for the sampler and the epoch scheduler.
//!
//! The simulation draws all its randomness from one run-scoped
//! generator. The generator itself and the two draws the discrete core
//! needs — shuffling the per-epoch node order and sampling measurement
//! counterparts without replacement — come from the `rand` crate and
//! are trusted; their contracts state only what holds of every
//! outcome, never which outcome is drawn.

use vstd::prelude::*;

use rand::rngs::ThreadRng;
use rand::seq::IndexedRandom;
use rand::seq::SliceRandom;

verus! {

#[verifier::external_type_specification]
#[verifier::external_body]
pub struct ExThreadRng(ThreadRng);

/// Relies on rand's `SliceRandom::shuffle`: it permutes the slice in
/// place, so the new contents are a rearrangement of the old.
#[verifier::external_body]
pub(crate) fn shuffle_indices(rng: &mut ThreadRng, order: &mut Vec<usize>)
    ensures
        final(order)@.len() == old(order)@.len(),
        final(order)@.to_multiset() == old(order)@.to_multiset(),
{
    order.shuffle(rng)
}

/// Relies on rand's `IndexedRandom::sample`: it draws `amount`
/// elements of the slice at distinct positions, uniformly without
/// replacement, and all of them when the slice is shorter than
/// `amount`.
#[verifier::external_body]
pub(crate) fn sample_distinct(rng: &mut ThreadRng, pool: &Vec<usize>, amount: usize) -> (r: Vec<usize>)
    ensures
        r@.len() == if amount <= pool@.len() {
            amount as int
        } else {
            pool@.len() as int
        },
        forall|j: int| 0 <= j < r@.len() ==> pool@.contains(#[trigger] r@[j]),
        (forall|i: int, j: int| 0 <= i < j < pool@.len() ==> pool@[i] != pool@[j])
            ==> (forall|i: int, j: int| 0 <= i < j < r@.len() ==> r@[i] != r@[j]),
{
    pool.sample(rng, amount).cloned().collect()
}

} // verus!
