use rand::seq::IteratorRandom;
use vstd::prelude::*;

verus! {

/// Relies on rand's `IteratorRandom::choose` over the range `0..n`, drawn
/// from the thread-local generator: a non-empty range always yields one of
/// its elements.
#[verifier::external_body]
pub(crate) fn pick_index(n: usize) -> (r: usize)
    requires
        n > 0,
    ensures
        r < n,
{
    (0..n).choose(&mut rand::thread_rng()).unwrap()
}

/// Relies on rand's `IteratorRandom::choose_multiple` over the range `0..n`,
/// drawn from the thread-local generator: reservoir sampling keeps
/// `min(amount, n)` elements, each element of the range at most once.
#[verifier::external_body]
pub(crate) fn sample_indices(n: usize, amount: usize) -> (r: Vec<usize>)
    ensures
        r@.len() == if amount < n { amount } else { n },
        r@.no_duplicates(),
        forall|i: int| 0 <= i < r@.len() ==> r@[i] < n,
{
    (0..n).choose_multiple(&mut rand::thread_rng(), amount)
}

} // verus!
