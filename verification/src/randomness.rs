//! The explicit random-generator handle and the trusted boundary around it.
//!
//! Every operation that needs randomness (deck shuffling, shop sampling)
//! takes a `rand::rngs::StdRng` handle, so a run is reproducible from a
//! seed. The wrappers below state only what holds of every outcome of the
//! generator: a shuffle permutes, a sample draws without replacement.

use vstd::prelude::*;

use crate::cards::ShopCardType;
use rand::SeedableRng;
use rand::seq::IndexedRandom;
use rand::seq::SliceRandom;

verus! {

#[verifier::external_type_specification]
#[verifier::external_body]
pub struct ExStdRng(rand::rngs::StdRng);

/// Relies on rand's `SeedableRng::seed_from_u64` to build a generator from
/// a seed. Nothing is assumed of the stream it produces.
#[verifier::external_body]
pub fn rng_from_seed(seed: u64) -> rand::rngs::StdRng {
    rand::rngs::StdRng::seed_from_u64(seed)
}

/// Relies on rand's `SliceRandom::shuffle`: a Fisher-Yates shuffle permutes
/// the slice in place, so the cards present are exactly those present
/// before, whatever the generator returned.
#[verifier::external_body]
pub(crate) fn shuffle_cards(cards: &mut Vec<ShopCardType>, rng: &mut rand::rngs::StdRng)
    ensures
        final(cards)@.len() == old(cards)@.len(),
        final(cards)@.to_multiset() == old(cards)@.to_multiset(),
{
    cards.shuffle(rng);
}

/// Relies on rand's `IndexedRandom::sample`: it returns
/// `min(amount, pool.len())` elements drawn at distinct indices of the
/// pool (sampling without replacement), whatever the generator returned.
#[verifier::external_body]
pub(crate) fn sample_cards(
    pool: &Vec<ShopCardType>,
    amount: usize,
    rng: &mut rand::rngs::StdRng,
) -> (r: Vec<ShopCardType>)
    ensures
        r@.len() == if amount <= pool@.len() {
            amount as int
        } else {
            pool@.len() as int
        },
        r@.to_multiset().subset_of(pool@.to_multiset()),
{
    pool.as_slice().sample(rng, amount).copied().collect()
}

} // verus!
