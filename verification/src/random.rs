//! Random choices, drawn from the thread's generator of `rand`.

use rand::seq::IndexedRandom;
use rand::Rng;
use vstd::prelude::*;

verus! {

/// `Rng::random_range` of `rand` on the inclusive range from `min` to `max`:
/// some value of that range. The call panics on an empty range, which the
/// precondition leaves out.
#[verifier::external_body]
pub(crate) fn random_between(min: u64, max: u64) -> (n: u64)
    requires
        min <= max,
    ensures
        min <= n <= max,
{
    rand::rng().random_range(min..=max)
}

/// `IndexedRandom::choose` of `rand`: one element of the slice, or `None`
/// where the slice is empty.
#[verifier::external_body]
pub(crate) fn pick<T: Copy>(items: &[T]) -> (chosen: Option<T>)
    ensures
        items@.len() == 0 <==> chosen is None,
        chosen matches Some(item) ==> items@.contains(item),
{
    items.choose(&mut rand::rng()).copied()
}

} // verus!
