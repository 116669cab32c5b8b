//! The affinity model: how strongly each pair of categories co-occurs.

use vstd::prelude::*;
use crate::tile::{tile_index, tile_type_to_int, TileType};

verus! {

/// The affinity table. Rows and columns follow the canonical order of the
/// categories:
///
/// | ordinal | category  |
/// |---------|-----------|
/// | 0       | ocean     |
/// | 1       | river     |
/// | 2       | beach     |
/// | 3       | grassland |
/// | 4       | forest    |
/// | 5       | mountain  |
/// | 6       | desert    |
/// | 7       | tundra    |
/// | 8       | snow      |
/// | 9       | swamp     |
///
/// The table is not symmetric, so it matters which axis stands for what.
/// Here a row belongs to a neighbor and a column to a candidate: entry
/// `[n][c]` is the weight that one neighbor of category `n` lends to the
/// cell becoming category `c`. Every weight is a whole number, and every
/// category lends a positive weight to itself.
pub const ADJ_MATRIX: [[u32; 10]; 10] = [
    [70, 10, 20, 0, 0, 0, 0, 0, 0, 0],
    [10, 100, 5, 75, 50, 30, 5, 5, 5, 20],
    [100, 5, 150, 70, 20, 50, 70, 1, 1, 1],
    [1, 30, 10, 100, 80, 20, 5, 15, 1, 30],
    [1, 40, 1, 50, 100, 20, 1, 20, 1, 20],
    [1, 40, 1, 20, 30, 100, 10, 30, 50, 1],
    [1, 10, 0, 20, 0, 0, 100, 0, 0, 0],
    [0, 5, 0, 15, 30, 30, 0, 100, 80, 60],
    [0, 15, 0, 0, 0, 80, 0, 0, 120, 0],
    [0, 30, 0, 30, 30, 0, 0, 50, 0, 100],
];

/// Weight that a neighbor of category `neighbor` lends to the candidate
/// with ordinal `candidate`.
pub open spec fn affinity(neighbor: TileType, candidate: int) -> int {
    ADJ_MATRIX[tile_index(neighbor)][candidate] as int
}

/// No weight is negative and none exceeds 150.
pub proof fn lemma_affinity_range(neighbor: TileType, candidate: int)
    requires
        0 <= candidate < 10,
    ensures
        0 <= affinity(neighbor, candidate) <= 150,
{
}

/// The diagonal of the table is positive: a neighbor always lends weight
/// to its own category.
pub proof fn lemma_self_affinity_positive(tile: TileType)
    ensures
        affinity(tile, tile_index(tile)) >= 70,
{
}

/// The row of the table that belongs to a neighbor of the given category.
pub fn affinity_row(neighbor: &TileType) -> (row: [u32; 10])
    ensures
        forall|k: int| 0 <= k < 10 ==> #[trigger] row[k] == affinity(*neighbor, k) && row[k] <= 150,
{
    proof {
        assert forall|k: int| 0 <= k < 10 implies affinity(*neighbor, k) <= 150 by {
            lemma_affinity_range(*neighbor, k);
        }
    }
    ADJ_MATRIX[tile_type_to_int(neighbor)]
}

/// Adds `row` into `weights`, element by element. No sum may exceed what
/// a `u32` holds.
pub fn add_prob_arrays(weights: &mut [u32; 10], row: &[u32; 10])
    requires
        forall|k: int| 0 <= k < 10 ==> #[trigger] old(weights)[k] + row[k] <= u32::MAX,
    ensures
        forall|k: int| 0 <= k < 10 ==> #[trigger] final(weights)[k] == old(weights)[k] + row[k],
{
    let mut i: usize = 0;
    while i < 10
        invariant
            i <= 10,
            forall|k: int| 0 <= k < i ==> weights[k] == old(weights)[k] + row[k],
            forall|k: int| i <= k < 10 ==> weights[k] == old(weights)[k],
            forall|k: int| 0 <= k < 10 ==> #[trigger] old(weights)[k] + row[k] <= u32::MAX,
        decreases 10 - i,
    {
        weights[i] = weights[i] + row[i];
        i += 1;
    }
}

} // verus!
