//! The game's only sources of randomness: shuffling card and role piles,
//! picking the initial president, and issuing reconnection credentials.

use rand::distributions::Alphanumeric;
use rand::prelude::SliceRandom;
use rand::Rng;
use vstd::prelude::*;

verus! {

/// Relies on rand's `SliceRandom::shuffle`: an in-place permutation of the
/// slice by swaps, so the elements of the vector are rearranged and none is
/// added or lost.
#[verifier::external_body]
pub(crate) fn shuffle<T>(v: &mut Vec<T>)
    ensures
        final(v)@.len() == old(v)@.len(),
        final(v)@.to_multiset() == old(v)@.to_multiset(),
{
    v.shuffle(&mut rand::thread_rng());
}

/// Relies on rand's `Rng::gen_range` over `0..n`: a uniformly sampled value
/// inside the (non-empty) range.
#[verifier::external_body]
pub(crate) fn random_below(n: usize) -> (r: usize)
    requires
        n > 0,
    ensures
        r < n,
{
    rand::thread_rng().gen_range(0..n)
}

/// One of the 62 characters the `Alphanumeric` distribution samples from.
pub open spec fn is_alphanumeric_char(c: char) -> bool {
    ||| ('a' <= c && c <= 'z')
    ||| ('A' <= c && c <= 'Z')
    ||| ('0' <= c && c <= '9')
}

/// Relies on rand's `Alphanumeric` distribution: each sample is one
/// alphanumeric character, and exactly 32 of them are collected.
#[verifier::external_body]
pub(crate) fn random_access_key() -> (r: String)
    ensures
        r@.len() == 32,
        forall|i: int| 0 <= i < r@.len() ==> is_alphanumeric_char(#[trigger] r@[i]),
{
    rand::thread_rng().sample_iter(&Alphanumeric).take(32).map(char::from).collect::<String>()
}

} // verus!
