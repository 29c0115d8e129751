use vstd::prelude::*;

use crate::topology::index_range;

verus! {

/// Relies on rand's `SliceRandom::shuffle`, driven by a `StdRng` seeded with
/// `seed`: it only swaps items of the slice, so what it holds is kept.
#[verifier::external_body]
fn shuffle_seeded(v: &mut Vec<usize>, seed: u64)
    ensures
        final(v)@.to_multiset() == old(v)@.to_multiset(),
{
    let mut rng = <rand::rngs::StdRng as rand::SeedableRng>::seed_from_u64(seed);
    rand::seq::SliceRandom::shuffle(v.as_mut_slice(), &mut rng);
}

/// The order in which one epoch visits `n` training examples: a random
/// permutation of `0..n`, drawn from a generator seeded with `seed`.
pub fn shuffled_order(n: usize, seed: u64) -> (r: Vec<usize>)
    ensures
        r@.len() == n,
        r@.to_multiset() == index_range(0, n as int).to_multiset(),
{
    let mut r: Vec<usize> = Vec::new();
    let mut i: usize = 0;
    while i < n
        invariant
            i <= n,
            r@ == index_range(0, i as int),
        decreases n - i,
    {
        r.push(i);
        i = i + 1;
    }
    shuffle_seeded(&mut r, seed);
    proof {
        r@.to_multiset_ensures();
        index_range(0, n as int).to_multiset_ensures();
    }
    r
}

/// Whether the epoch with zero-based index `epoch` ends a diagnostic
/// interval of `epochs_per_print` epochs; an interval of 0 never reports.
pub fn should_report(epoch: usize, epochs_per_print: usize) -> (r: bool)
    requires
        epoch < usize::MAX,
    ensures
        r == (epochs_per_print != 0 && (epoch + 1) % (epochs_per_print as int) == 0),
{
    epochs_per_print != 0 && (epoch + 1) % epochs_per_print == 0
}

} // verus!
