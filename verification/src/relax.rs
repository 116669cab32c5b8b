//! The relaxation rule: from the eight cells around a cell to its next
//! category.

use vstd::prelude::*;
use rand::rngs::StdRng;
use crate::affinity::{
    add_prob_arrays, affinity, affinity_row, lemma_affinity_range, lemma_self_affinity_positive,
};
use crate::dice::draw_below;
use crate::sampling::{
    lemma_weighted_choice_band, lemma_weighted_choice_exists, prefix_sum, sum_weights,
    total_weight, weighted_choice, weighted_pick, weights_of,
};
use crate::tile::{tile_at, tile_index, tile_type_from_int, TileType};

verus! {

/// How a cell's next category is chosen.
#[derive(Debug, Clone, Copy, PartialEq, Eq, Structural)]
pub enum Policy {
    /// Each neighbor votes with its row of the affinity table and the
    /// category is drawn in proportion to the summed votes.
    WeightedAffinity,
    /// The cell copies one of its neighbors, or now and then takes a fresh
    /// category regardless of them.
    NeighborCopy,
}

/// The eight cells around a cell. A direction that falls outside the grid
/// is `None`.
#[derive(Debug, Clone, Copy, PartialEq, Eq)]
pub struct Neighbors {
    pub ul: Option<TileType>,
    pub up: Option<TileType>,
    pub ur: Option<TileType>,
    pub l: Option<TileType>,
    pub r: Option<TileType>,
    pub dl: Option<TileType>,
    pub d: Option<TileType>,
    pub dr: Option<TileType>,
}

/// Number of outcomes of a neighbor-copy draw: ten fresh categories and
/// eight bands of eight, one band per direction.
pub const COPY_DRAWS: u32 = 74;

/// The category that stands for a neighbor: its own, or grassland where
/// the grid has no cell in that direction.
pub open spec fn present_or_grassland(cell: Option<TileType>) -> TileType {
    match cell {
        Some(tile) => tile,
        None => TileType::Grassland,
    }
}

/// Weight that the eight neighbors together give to the candidate with
/// ordinal `candidate`.
pub open spec fn accumulated_weight(neighbors: Neighbors, candidate: int) -> int {
    affinity(present_or_grassland(neighbors.ul), candidate)
        + affinity(present_or_grassland(neighbors.up), candidate)
        + affinity(present_or_grassland(neighbors.ur), candidate)
        + affinity(present_or_grassland(neighbors.l), candidate)
        + affinity(present_or_grassland(neighbors.r), candidate)
        + affinity(present_or_grassland(neighbors.dl), candidate)
        + affinity(present_or_grassland(neighbors.d), candidate)
        + affinity(present_or_grassland(neighbors.dr), candidate)
}

/// The ten accumulated weights, in the canonical order of the categories.
pub open spec fn neighbor_weights(neighbors: Neighbors) -> Seq<int> {
    Seq::new(10, |k: int| accumulated_weight(neighbors, k))
}

/// The neighbor that band `band` of a neighbor-copy draw looks at.
pub open spec fn neighbor_in_band(neighbors: Neighbors, band: int) -> Option<TileType> {
    if band <= 0 {
        neighbors.ul
    } else if band == 1 {
        neighbors.up
    } else if band == 2 {
        neighbors.ur
    } else if band == 3 {
        neighbors.l
    } else if band == 4 {
        neighbors.r
    } else if band == 5 {
        neighbors.dl
    } else if band == 6 {
        neighbors.d
    } else {
        neighbors.dr
    }
}

/// Outcome of the neighbor-copy policy for a draw from `0..74`: a draw
/// below ten is the ordinal of a fresh category; the draws from ten on
/// fall into eight bands of eight, and band `b` copies neighbor `b`.
pub open spec fn neighbor_copy(neighbors: Neighbors, draw: int) -> TileType {
    if draw < 10 {
        tile_at(draw)
    } else {
        present_or_grassland(neighbor_in_band(neighbors, (draw - 10) / 8))
    }
}

/// Number of equally likely draws the policy distinguishes for this
/// neighborhood; a draw is taken from `0..draw_bound`.
pub open spec fn draw_bound(policy: Policy, neighbors: Neighbors) -> int {
    match policy {
        Policy::WeightedAffinity => total_weight(neighbor_weights(neighbors)),
        Policy::NeighborCopy => COPY_DRAWS as int,
    }
}

/// The category the rule yields for a neighborhood and a draw.
///
/// Under weighted affinity the categories are walked in their canonical
/// order and the first one whose cumulative weight exceeds the draw is
/// taken. The weights are whole numbers, so a draw that is uniform over the
/// whole numbers below their sum takes each category with a probability
/// proportional to its weight.
pub open spec fn relaxed_tile(policy: Policy, neighbors: Neighbors, draw: int) -> TileType {
    match policy {
        Policy::WeightedAffinity => tile_at(weighted_choice(neighbor_weights(neighbors), draw)),
        Policy::NeighborCopy => neighbor_copy(neighbors, draw),
    }
}

/// `tile` is what the rule yields for some draw in range.
pub open spec fn can_relax_to(policy: Policy, neighbors: Neighbors, tile: TileType) -> bool {
    exists|draw: int|
        0 <= draw < draw_bound(policy, neighbors) && #[trigger] relaxed_tile(
            policy,
            neighbors,
            draw,
        ) == tile
}

/// The neighborhood in which every absent neighbor is a grassland tile.
pub open spec fn with_grassland(neighbors: Neighbors) -> Neighbors {
    Neighbors {
        ul: Some(present_or_grassland(neighbors.ul)),
        up: Some(present_or_grassland(neighbors.up)),
        ur: Some(present_or_grassland(neighbors.ur)),
        l: Some(present_or_grassland(neighbors.l)),
        r: Some(present_or_grassland(neighbors.r)),
        dl: Some(present_or_grassland(neighbors.dl)),
        d: Some(present_or_grassland(neighbors.d)),
        dr: Some(present_or_grassland(neighbors.dr)),
    }
}

/// An absent neighbor counts as grassland: under either policy a cell at
/// the edge of the grid relaxes as it would with grassland beyond the
/// edge.
pub proof fn lemma_absent_neighbor_is_grassland(policy: Policy, neighbors: Neighbors, draw: int)
    ensures
        neighbor_weights(neighbors) == neighbor_weights(with_grassland(neighbors)),
        draw_bound(policy, neighbors) == draw_bound(policy, with_grassland(neighbors)),
        relaxed_tile(policy, neighbors, draw) == relaxed_tile(
            policy,
            with_grassland(neighbors),
            draw,
        ),
{
    assert(neighbor_weights(neighbors) =~= neighbor_weights(with_grassland(neighbors)));
}

/// The neighbor-copy policy in terms of its bands: a draw below ten is a
/// fresh category whatever the neighbors are, and the eight draws from
/// `10 + 8 * band` on copy the neighbor of that band.
pub proof fn lemma_copy_bands(neighbors: Neighbors, band: int, draw: int)
    ensures
        0 <= draw < 10 ==> neighbor_copy(neighbors, draw) == tile_at(draw),
        0 <= band < 8 && 10 + 8 * band <= draw < 18 + 8 * band ==> neighbor_copy(neighbors, draw)
            == present_or_grassland(neighbor_in_band(neighbors, band)),
{
}

/// Every neighbor stands for `tile`: it holds that category, or it is
/// absent and `tile` is grassland.
pub open spec fn all_stand_for(neighbors: Neighbors, tile: TileType) -> bool {
    &&& present_or_grassland(neighbors.ul) == tile
    &&& present_or_grassland(neighbors.up) == tile
    &&& present_or_grassland(neighbors.ur) == tile
    &&& present_or_grassland(neighbors.l) == tile
    &&& present_or_grassland(neighbors.r) == tile
    &&& present_or_grassland(neighbors.dl) == tile
    &&& present_or_grassland(neighbors.d) == tile
    &&& present_or_grassland(neighbors.dr) == tile
}

/// Eight neighbors that all stand for the same category give each
/// candidate eight times the weight that one of them lends.
pub proof fn lemma_uniform_neighborhood_weights(
    neighbors: Neighbors,
    tile: TileType,
    candidate: int,
)
    requires
        all_stand_for(neighbors, tile),
    ensures
        accumulated_weight(neighbors, candidate) == 8 * affinity(tile, candidate),
{
}

/// Each accumulated weight lies between 0 and 8 times the largest table
/// entry.
pub proof fn lemma_accumulated_weight_range(neighbors: Neighbors, candidate: int)
    requires
        0 <= candidate < 10,
    ensures
        0 <= accumulated_weight(neighbors, candidate) <= 1200,
{
    lemma_affinity_range(present_or_grassland(neighbors.ul), candidate);
    lemma_affinity_range(present_or_grassland(neighbors.up), candidate);
    lemma_affinity_range(present_or_grassland(neighbors.ur), candidate);
    lemma_affinity_range(present_or_grassland(neighbors.l), candidate);
    lemma_affinity_range(present_or_grassland(neighbors.r), candidate);
    lemma_affinity_range(present_or_grassland(neighbors.dl), candidate);
    lemma_affinity_range(present_or_grassland(neighbors.d), candidate);
    lemma_affinity_range(present_or_grassland(neighbors.dr), candidate);
}

/// The weights of any neighborhood, absent neighbors included, sum to a
/// positive number: the interval a draw is taken from is never empty. The
/// sum is at most 12000, so it fits a `u32`.
pub proof fn lemma_total_weight_positive(neighbors: Neighbors)
    ensures
        0 < total_weight(neighbor_weights(neighbors)) <= 12000,
{
    let w = neighbor_weights(neighbors);
    assert forall|k: int| 0 <= k < 10 implies 0 <= #[trigger] w[k] <= 1200 by {
        lemma_accumulated_weight_range(neighbors, k);
    }
    let first = present_or_grassland(neighbors.ul);
    assert(w[tile_index(first)] >= 70) by {
        lemma_self_affinity_positive(first);
        lemma_affinity_range(present_or_grassland(neighbors.up), tile_index(first));
        lemma_affinity_range(present_or_grassland(neighbors.ur), tile_index(first));
        lemma_affinity_range(present_or_grassland(neighbors.l), tile_index(first));
        lemma_affinity_range(present_or_grassland(neighbors.r), tile_index(first));
        lemma_affinity_range(present_or_grassland(neighbors.dl), tile_index(first));
        lemma_affinity_range(present_or_grassland(neighbors.d), tile_index(first));
        lemma_affinity_range(present_or_grassland(neighbors.dr), tile_index(first));
    }
    reveal_with_fuel(prefix_sum, 11);
}

/// Which categories a cell can relax to. Under weighted affinity they are
/// the categories whose accumulated weight is positive; under neighbor
/// copy every category can come out, whatever the neighbors are.
pub proof fn lemma_reachable_categories(neighbors: Neighbors, tile: TileType)
    ensures
        can_relax_to(Policy::WeightedAffinity, neighbors, tile) <==> accumulated_weight(
            neighbors,
            tile_index(tile),
        ) > 0,
        can_relax_to(Policy::NeighborCopy, neighbors, tile),
{
    let w = neighbor_weights(neighbors);
    let k: int = tile_index(tile);
    assert forall|i: int| 0 <= i < 10 implies 0 <= #[trigger] w[i] by {
        lemma_accumulated_weight_range(neighbors, i);
    }
    if can_relax_to(Policy::WeightedAffinity, neighbors, tile) {
        let draw: int = choose|draw: int|
            0 <= draw < draw_bound(Policy::WeightedAffinity, neighbors) && #[trigger] relaxed_tile(
                Policy::WeightedAffinity,
                neighbors,
                draw,
            ) == tile;
        lemma_weighted_choice_exists(w, draw);
    }
    if w[k] > 0 {
        let draw: int = prefix_sum(w, k);
        lemma_weighted_choice_band(w, draw, k);
        assert(relaxed_tile(Policy::WeightedAffinity, neighbors, draw) == tile);
    }
    assert(relaxed_tile(Policy::NeighborCopy, neighbors, k) == tile);
}

/// The ten accumulated weights of a neighborhood: one row of the affinity
/// table per neighbor, added element by element, with grassland's row for
/// each absent neighbor.
pub fn accumulate_weights(neighbors: &Neighbors) -> (weights: [u32; 10])
    ensures
        weights_of(weights) == neighbor_weights(*neighbors),
{
    let ul_type = neighbors.ul.unwrap_or(TileType::Grassland);
    let up_type = neighbors.up.unwrap_or(TileType::Grassland);
    let ur_type = neighbors.ur.unwrap_or(TileType::Grassland);
    let l_type = neighbors.l.unwrap_or(TileType::Grassland);
    let r_type = neighbors.r.unwrap_or(TileType::Grassland);
    let dl_type = neighbors.dl.unwrap_or(TileType::Grassland);
    let d_type = neighbors.d.unwrap_or(TileType::Grassland);
    let dr_type = neighbors.dr.unwrap_or(TileType::Grassland);
    let mut weights: [u32; 10] = [0; 10];
    add_prob_arrays(&mut weights, &affinity_row(&ul_type));
    add_prob_arrays(&mut weights, &affinity_row(&up_type));
    add_prob_arrays(&mut weights, &affinity_row(&ur_type));
    add_prob_arrays(&mut weights, &affinity_row(&l_type));
    add_prob_arrays(&mut weights, &affinity_row(&r_type));
    add_prob_arrays(&mut weights, &affinity_row(&dl_type));
    add_prob_arrays(&mut weights, &affinity_row(&d_type));
    add_prob_arrays(&mut weights, &affinity_row(&dr_type));
    weights
}

/// The neighbor-copy policy for a given draw.
pub fn copy_neighbor(neighbors: &Neighbors, draw: u32) -> (tile: TileType)
    requires
        draw < COPY_DRAWS,
    ensures
        tile == neighbor_copy(*neighbors, draw as int),
{
    if draw < 10 {
        tile_type_from_int(draw as usize)
    } else {
        let band: u32 = (draw - 10) / 8;
        let copied = if band == 0 {
            neighbors.ul
        } else if band == 1 {
            neighbors.up
        } else if band == 2 {
            neighbors.ur
        } else if band == 3 {
            neighbors.l
        } else if band == 4 {
            neighbors.r
        } else if band == 5 {
            neighbors.dl
        } else if band == 6 {
            neighbors.d
        } else {
            neighbors.dr
        };
        copied.unwrap_or(TileType::Grassland)
    }
}

/// Number of draws the policy distinguishes for this neighborhood: the sum
/// of the accumulated weights, or 74 for neighbor copy.
pub fn draw_count(policy: Policy, neighbors: &Neighbors) -> (bound: u32)
    ensures
        bound == draw_bound(policy, *neighbors),
        bound > 0,
{
    match policy {
        Policy::WeightedAffinity => {
            let weights = accumulate_weights(neighbors);
            proof {
                lemma_total_weight_positive(*neighbors);
            }
            sum_weights(&weights) as u32
        },
        Policy::NeighborCopy => COPY_DRAWS,
    }
}

/// The relaxation rule for a given draw: the next category of a cell with
/// these neighbors.
pub fn relax_cell(policy: Policy, neighbors: &Neighbors, draw: u32) -> (tile: TileType)
    requires
        draw < draw_bound(policy, *neighbors),
    ensures
        tile == relaxed_tile(policy, *neighbors, draw as int),
{
    match policy {
        Policy::WeightedAffinity => {
            let weights = accumulate_weights(neighbors);
            tile_type_from_int(weighted_pick(&weights, draw as u64))
        },
        Policy::NeighborCopy => copy_neighbor(neighbors, draw),
    }
}

/// Draws from `rng` and applies the relaxation rule: the result is what the
/// rule yields for the neighborhood and some draw in the policy's range.
pub fn random_tile_type(policy: Policy, neighbors: &Neighbors, rng: &mut StdRng) -> (tile:
    TileType)
    ensures
        can_relax_to(policy, *neighbors, tile),
{
    match policy {
        Policy::WeightedAffinity => {
            let weights = accumulate_weights(neighbors);
            let sum_of_weights: u64 = sum_weights(&weights);
            proof {
                lemma_total_weight_positive(*neighbors);
            }
            let draw: u32 = draw_below(rng, sum_of_weights as u32);
            let tile = tile_type_from_int(weighted_pick(&weights, draw as u64));
            assert(tile == relaxed_tile(policy, *neighbors, draw as int));
            tile
        },
        Policy::NeighborCopy => {
            let draw: u32 = draw_below(rng, COPY_DRAWS);
            let tile = copy_neighbor(neighbors, draw);
            assert(tile == relaxed_tile(policy, *neighbors, draw as int));
            tile
        },
    }
}

} // verus!
