use vstd::prelude::*;

use rand::distributions::Distribution;
use rand::Rng;

verus! {

#[verifier::external_type_specification]
#[verifier::external_body]
pub struct ExUuid(uuid::Uuid);

#[verifier::external_type_specification]
#[verifier::external_body]
pub struct ExStdRng(rand::rngs::StdRng);

/// The sum of `w`.
pub open spec fn weight_sum(w: Seq<u32>) -> nat
    decreases w.len(),
{
    if w.len() == 0 {
        0
    } else {
        weight_sum(w.drop_last()) + w.last() as nat
    }
}

/// Relies on uuid::Uuid::new_v4: a fresh random identifier, of which
/// nothing is promised.
#[verifier::external_body]
pub(crate) fn new_id() -> (r: uuid::Uuid) {
    uuid::Uuid::new_v4()
}

/// Relies on rand::Rng::gen_range over `0..bound`: a value in that range,
/// drawn uniformly. An empty range would panic, so `bound` is positive.
#[verifier::external_body]
pub(crate) fn uniform_below(rng: &mut rand::rngs::StdRng, bound: u32) -> (r: u32)
    requires
        bound > 0,
    ensures
        r < bound,
{
    rng.gen_range(0..bound)
}

/// Relies on rand::distributions::WeightedIndex (`new`, then `sample`):
/// the index of an item drawn with probability proportional to its weight,
/// so never one of weight zero. `new` fails on an empty or all-zero list,
/// and the running total must fit in a `u32`.
#[verifier::external_body]
pub(crate) fn weighted_index(rng: &mut rand::rngs::StdRng, weights: &Vec<u32>) -> (r: usize)
    requires
        weights.len() > 0,
        0 < weight_sum(weights@) <= u32::MAX,
    ensures
        r < weights.len(),
        weights[r as int] > 0,
{
    rand::distributions::WeightedIndex::new(weights).unwrap().sample(rng)
}

} // verus!
