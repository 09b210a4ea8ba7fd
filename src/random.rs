//! The seedable generator that the spawner draws from.
use vstd::prelude::*;

use rand::distributions::{Distribution, WeightedIndex};
use rand::Rng;
use rand::SeedableRng;
use rand_pcg::Mcg128Xsl64;

verus! {

#[verifier::external_type_specification]
#[verifier::external_body]
pub struct ExMcg128Xsl64(Mcg128Xsl64);

/// Relies on rand_core's `SeedableRng::seed_from_u64` for rand_pcg's
/// `Pcg64Mcg`: a generator whose whole output sequence is fixed by `seed`.
#[verifier::external_body]
pub(crate) fn seeded(seed: u64) -> (r: Mcg128Xsl64) {
    Mcg128Xsl64::seed_from_u64(seed)
}

/// Relies on rand's `Rng::gen_range` over an inclusive range of `i64`: it
/// panics only on an empty range, and otherwise returns a value in it.
#[verifier::external_body]
pub(crate) fn pick_between(rng: &mut Mcg128Xsl64, lo: i64, hi: i64) -> (r: i64)
    requires
        lo <= hi,
    ensures
        lo <= r <= hi,
{
    rng.gen_range(lo..=hi)
}

/// Relies on rand's `Rng::gen_ratio`: true with chance `numerator / denominator`,
/// never when the numerator is zero, always when it equals the denominator; it
/// panics only on a zero denominator or a numerator above it.
#[verifier::external_body]
pub(crate) fn chance(rng: &mut Mcg128Xsl64, numerator: u32, denominator: u32) -> (r: bool)
    requires
        0 < denominator,
        numerator <= denominator,
    ensures
        numerator == 0 ==> !r,
        numerator == denominator ==> r,
{
    rng.gen_ratio(numerator, denominator)
}

/// Relies on rand's `WeightedIndex`: `new` fails only on no weights or a zero
/// total, and `sample` returns an index whose chance is proportional to its
/// weight, so never one of weight zero.
#[verifier::external_body]
pub(crate) fn pick_weighted(rng: &mut Mcg128Xsl64, weights: &Vec<u32>) -> (r: usize)
    requires
        weights@.len() <= 16,
        forall|i: int| 0 <= i < weights@.len() ==> weights@[i] <= 1000,
        exists|i: int| 0 <= i < weights@.len() && weights@[i] > 0,
    ensures
        r < weights@.len(),
        weights@[r as int] > 0,
{
    WeightedIndex::new(weights).expect("some weight is positive").sample(rng)
}

} // verus!
