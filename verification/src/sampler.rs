//! Drawing one of several categories, each with a chance in proportion to
//! its weight.

use crate::rng::{fresh_weighted_index, total_weight};
use vstd::prelude::*;

verus! {

/// The weights of a table of categories, in the table's order.
pub open spec fn weights_of<T>(table: Seq<(T, u32)>) -> Seq<u32> {
    Seq::new(table.len(), |i: int| table[i].1)
}

/// Whether `category` stands in `table` with a weight above zero.
pub open spec fn can_be_drawn<T>(table: Seq<(T, u32)>, category: T) -> bool {
    exists|i: int| 0 <= i < table.len() && (#[trigger] table[i]).0 == category && table[i].1 > 0
}

/// Lists the weights of `table`.
pub fn weights<T>(table: &Vec<(T, u32)>) -> (weights: Vec<u32>)
    ensures
        weights@ == weights_of(table@),
{
    let mut weights: Vec<u32> = Vec::new();
    let mut i: usize = 0;
    while i < table.len()
        invariant
            i <= table@.len(),
            weights@ == weights_of(table@).take(i as int),
        decreases table@.len() - i,
    {
        weights.push(table[i].1);
        assert(weights@ =~= weights_of(table@).take(i + 1));
        i += 1;
    }
    assert(weights@ =~= weights_of(table@));
    weights
}

/// Picks one category of `table` by a single draw: the category at a place
/// that is drawn with a chance in proportion to its weight. A category of
/// weight zero is never picked. The table is not empty, and its weights add
/// up to more than zero and to no more than a `u32` holds.
pub fn sample<T: Copy>(table: &Vec<(T, u32)>) -> (category: T)
    requires
        table@.len() > 0,
        0 < total_weight(weights_of(table@)) <= u32::MAX,
    ensures
        can_be_drawn(table@, category),
{
    let index = fresh_weighted_index(&weights(table));
    assert(table@[index as int].1 > 0);
    table[index].0
}

} // verus!
