//! The random draws the game makes, through the `rand` crate.
//!
//! Nothing here is proved: each contract says what `rand` documents of the
//! call, for every generator state. How likely each outcome is lies outside
//! what the contracts can say.

use vstd::prelude::*;
use rand::rngs::StdRng;
use rand::seq::IndexedRandom;
use rand::Rng;
use crate::resource::Resource;

verus! {

/// `rand::rngs::StdRng`, the generator all draws are made from. It is opaque
/// here: a draw may change it in any way.
#[verifier::external_type_specification]
#[verifier::external_body]
pub struct ExStdRng(rand::rngs::StdRng);

/// `rand::Rng::random_range` on the inclusive range `low..=high`: a value of
/// that range. The call panics on an empty range, which `requires` rules out.
#[verifier::external_body]
pub(crate) fn draw_between(rng: &mut StdRng, low: i8, high: i8) -> (drawn: i8)
    requires
        low <= high,
    ensures
        low <= drawn <= high,
{
    rng.random_range(low..=high)
}

/// `rand::seq::IndexedRandom::choose` on the six kinds as a slice: one of its
/// elements, or nothing when the slice is empty.
#[verifier::external_body]
pub(crate) fn choose_kind(rng: &mut StdRng, kinds: &[Resource; 6]) -> (chosen: Option<Resource>)
    ensures
        match chosen {
            Some(kind) => kinds@.contains(kind),
            None => kinds@.len() == 0,
        },
{
    kinds.choose(rng).copied()
}

} // verus!
