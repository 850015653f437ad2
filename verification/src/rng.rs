//! The random sources of the generators, and what the library knows of them.
//!
//! A generator made from a seed is deterministic: what it hands out depends
//! on the seed and on the draws it has served before, and on nothing else.
//! The contracts below say so through uninterpreted functions, which stand
//! for the values that the `rand` crate computes. The draws that start from
//! the thread's own generator are only known to fall inside their range.

use rand::distributions::{Alphanumeric, DistString, Distribution, WeightedIndex};
use rand::rngs::StdRng;
use rand::{Rng, SeedableRng};
use vstd::prelude::*;

verus! {

/// One request that a seeded generator has served.
pub enum Draw {
    /// An integer of `bits` bits between `low` and `high`, both included.
    Number { bits: nat, low: int, high: int },
    /// A string of `count` letters and digits.
    Letters { count: nat },
}

/// `rand::rngs::StdRng`, the generator that is made from a seed. The library
/// carries it from draw to draw and never looks inside.
#[verifier::external_type_specification]
#[verifier::external_body]
pub struct ExStdRng(StdRng);

/// The seed that `rng` was made from.
pub uninterp spec fn seed_of(rng: StdRng) -> u64;

/// The requests that `rng` has served since it was made, oldest first.
pub uninterp spec fn served(rng: StdRng) -> Seq<Draw>;

/// The integer that a generator made from `seed` hands out for a draw of
/// `bits` bits between `low` and `high`, after it has served `earlier`.
pub uninterp spec fn drawn(seed: u64, earlier: Seq<Draw>, bits: nat, low: int, high: int) -> int;

/// The string of `count` letters and digits that a generator made from `seed`
/// hands out after it has served `earlier`.
pub uninterp spec fn letters(seed: u64, earlier: Seq<Draw>, count: nat) -> Seq<char>;

/// Whether `c` is an ASCII letter or digit.
pub open spec fn is_alphanumeric(c: char) -> bool {
    ||| 'A' <= c <= 'Z'
    ||| 'a' <= c <= 'z'
    ||| '0' <= c <= '9'
}

/// `StdRng::seed_from_u64`: a generator that remembers its seed and has
/// served nothing yet.
#[verifier::external_body]
pub(crate) fn seeded(seed: u64) -> (rng: StdRng)
    ensures
        seed_of(rng) == seed,
        served(rng) == Seq::<Draw>::empty(),
{
    StdRng::seed_from_u64(seed)
}

/// `Rng::gen_range` on a seeded generator, for a `u32` in `low..=high`. The
/// value lies in the range and is the one that the seed and the earlier
/// draws determine; the draw is added to what the generator has served.
#[verifier::external_body]
pub(crate) fn draw_u32(rng: &mut StdRng, low: u32, high: u32) -> (value: u32)
    requires
        low <= high,
    ensures
        low <= value <= high,
        value == drawn(seed_of(*old(rng)), served(*old(rng)), 32, low as int, high as int),
        seed_of(*final(rng)) == seed_of(*old(rng)),
        served(*final(rng)) == served(*old(rng)).push(
            Draw::Number { bits: 32, low: low as int, high: high as int },
        ),
{
    rng.gen_range(low..=high)
}

/// `Rng::gen_range` on a seeded generator, for a `u8` in `low..=high`, with
/// the same promises as for a `u32`.
#[verifier::external_body]
pub(crate) fn draw_u8(rng: &mut StdRng, low: u8, high: u8) -> (value: u8)
    requires
        low <= high,
    ensures
        low <= value <= high,
        value == drawn(seed_of(*old(rng)), served(*old(rng)), 8, low as int, high as int),
        seed_of(*final(rng)) == seed_of(*old(rng)),
        served(*final(rng)) == served(*old(rng)).push(
            Draw::Number { bits: 8, low: low as int, high: high as int },
        ),
{
    rng.gen_range(low..=high)
}

/// `Rng::gen_range` on a seeded generator, for a `u64` in `low..=high`, with
/// the same promises as for a `u32`.
#[verifier::external_body]
pub(crate) fn draw_u64(rng: &mut StdRng, low: u64, high: u64) -> (value: u64)
    requires
        low <= high,
    ensures
        low <= value <= high,
        value == drawn(seed_of(*old(rng)), served(*old(rng)), 64, low as int, high as int),
        seed_of(*final(rng)) == seed_of(*old(rng)),
        served(*final(rng)) == served(*old(rng)).push(
            Draw::Number { bits: 64, low: low as int, high: high as int },
        ),
{
    rng.gen_range(low..=high)
}

/// `Alphanumeric.sample_string` on a seeded generator: `count` characters,
/// each an ASCII letter or digit, determined by the seed and the earlier
/// draws.
#[verifier::external_body]
pub(crate) fn draw_letters(rng: &mut StdRng, count: usize) -> (text: String)
    ensures
        text@ == letters(seed_of(*old(rng)), served(*old(rng)), count as nat),
        text@.len() == count,
        forall|i: int| 0 <= i < text@.len() ==> is_alphanumeric(#[trigger] text@[i]),
        seed_of(*final(rng)) == seed_of(*old(rng)),
        served(*final(rng)) == served(*old(rng)).push(Draw::Letters { count: count as nat }),
{
    Alphanumeric.sample_string(rng, count)
}

/// `Rng::gen_range` on the thread's own generator, which the system seeds:
/// some `u32` in `low..=high`. Nothing more is known of it, and two calls
/// may differ.
#[verifier::external_body]
pub(crate) fn fresh_u32(low: u32, high: u32) -> (value: u32)
    requires
        low <= high,
    ensures
        low <= value <= high,
{
    rand::thread_rng().gen_range(low..=high)
}

/// The sum of the first `count` of `weights`.
pub open spec fn weight_before(weights: Seq<u32>, count: int) -> int
    decreases count,
{
    if count <= 0 {
        0
    } else {
        weight_before(weights, count - 1) + weights[count - 1]
    }
}

/// The sum of `weights`.
pub open spec fn total_weight(weights: Seq<u32>) -> int {
    weight_before(weights, weights.len() as int)
}

/// `WeightedIndex::new` and one `sample` of it on the thread's own generator:
/// the index of one of the weights, and never of a weight that is zero. The
/// `requires` leaves out the lists that `WeightedIndex::new` rejects, and the
/// sums that do not fit the weights' type.
#[verifier::external_body]
pub(crate) fn fresh_weighted_index(weights: &Vec<u32>) -> (index: usize)
    requires
        weights@.len() > 0,
        0 < total_weight(weights@) <= u32::MAX,
    ensures
        index < weights@.len(),
        weights@[index as int] > 0,
{
    WeightedIndex::new(weights).unwrap().sample(&mut rand::thread_rng())
}

} // verus!
