//! Rolling the two dice.

use vstd::prelude::*;
use rand::rngs::StdRng;
use crate::chance::draw_between;

verus! {

/// The lowest face of a die.
pub const MIN_FACE: i8 = 1;

/// The highest face of a die.
pub const MAX_FACE: i8 = 6;

/// Whether `face` is a face of a six-sided die.
pub open spec fn is_face(face: int) -> bool {
    MIN_FACE <= face <= MAX_FACE
}

/// The roll that two dice showing `first` and `second` make: their sum.
/// Nothing when one of the two is not a face of a die.
pub fn dice_total(first: i8, second: i8) -> (total: Option<i8>)
    ensures
        match total {
            Some(sum) => is_face(first as int) && is_face(second as int) && sum == first + second,
            None => !is_face(first as int) || !is_face(second as int),
        },
{
    if MIN_FACE <= first && first <= MAX_FACE && MIN_FACE <= second && second <= MAX_FACE {
        Some(first + second)
    } else {
        None
    }
}

/// Rolls two dice, one after the other, and returns their sum. Totals near
/// seven are the likeliest, as with real dice.
///
/// Which total comes out depends on the generator; it is always one that two
/// dice can show.
pub fn roll_dice(rng: &mut StdRng) -> (roll: i8)
    ensures
        2 <= roll <= 12,
{
    let first = draw_between(rng, MIN_FACE, MAX_FACE);
    let second = draw_between(rng, MIN_FACE, MAX_FACE);
    dice_total(first, second).unwrap()
}

} // verus!
