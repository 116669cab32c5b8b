//! Terrain maps relaxed toward spatial coherence.
//!
//! A [`TileMap`] is a rectangular grid of categorical terrain tiles. It is
//! seeded uniformly at random and then evolved by synchronous passes of a
//! relaxation rule that looks at the eight cells around each cell: under
//! [`Policy::WeightedAffinity`] the neighbors vote with their rows of the
//! affinity table, under [`Policy::NeighborCopy`] the cell copies one of
//! them. The finished grid can be painted into a [`Raster`].
//!
//! Every random draw is taken from a generator that the caller hands in,
//! so a seeded generator gives a repeatable map. For a given draw the rule
//! is the pure function [`relax::relax_cell`].

pub mod affinity;
pub mod dice;
pub mod raster;
pub mod relax;
pub mod sampling;
pub mod tile;
pub mod tile_map;

pub use raster::Raster;
pub use relax::{Neighbors, Policy};
pub use tile::TileType;
pub use tile_map::{MapError, TileMap};
