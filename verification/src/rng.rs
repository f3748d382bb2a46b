//! Randomness for the engine, built on the rand crate.
//!
//! Two operations are trusted calls — shuffling a vector uniformly at random
//! and drawing a uniformly random index — with contracts stating only what
//! holds of every outcome. `pick_random` is verified on top of them.

use rand::seq::SliceRandom;
use rand::RngExt;
use vstd::prelude::*;

verus! {

/// Relies on rand's `SliceRandom::shuffle`: permutes the elements in place,
/// so the multiset of elements (and hence the length) is unchanged.
#[verifier::external_body]
pub(crate) fn shuffle_vec<T>(v: &mut Vec<T>)
    ensures
        final(v)@.to_multiset() == old(v)@.to_multiset(),
        final(v)@.len() == old(v)@.len(),
{
    v.shuffle(&mut rand::rng());
}

/// Relies on rand's `RngExt::random_range`: a uniformly random value of the
/// non-empty range `0..len`, so strictly below `len`.
#[verifier::external_body]
pub(crate) fn rand_index(len: usize) -> (r: usize)
    requires
        len > 0,
    ensures
        r < len,
{
    rand::rng().random_range(0..len)
}

/// A uniformly random element of the list, `None` exactly when the list is
/// empty: whatever index the draw gave, the result is one of the elements.
pub fn pick_random<T>(list: Vec<T>) -> (r: Option<T>)
    ensures
        r is Some <==> list@.len() > 0,
        r matches Some(picked) ==> exists|i: int| 0 <= i < list@.len() && picked == list@[i],
{
    let mut list = list;
    if list.len() == 0 {
        return None;
    }
    let i: usize = rand_index(list.len());
    Some(list.swap_remove(i))
}

} // verus!
