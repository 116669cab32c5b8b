//! The closed set of terrain categories, their ordinals and their colors.

use vstd::prelude::*;

verus! {

/// One terrain category. The declaration order is the canonical order
/// used wherever categories are walked or indexed.
#[derive(Debug, Clone, Copy, PartialEq, Eq, Structural)]
pub enum TileType {
    Ocean,
    River,
    Beach,
    Grassland,
    Forest,
    Mountain,
    Desert,
    Tundra,
    Snow,
    Swamp,
}

/// Number of terrain categories.
pub const TILE_KINDS: usize = 10;

/// Ordinal of a category, from 0 (ocean) to 9 (swamp).
pub open spec fn tile_index(tile: TileType) -> int {
    match tile {
        TileType::Ocean => 0,
        TileType::River => 1,
        TileType::Beach => 2,
        TileType::Grassland => 3,
        TileType::Forest => 4,
        TileType::Mountain => 5,
        TileType::Desert => 6,
        TileType::Tundra => 7,
        TileType::Snow => 8,
        TileType::Swamp => 9,
    }
}

/// The category with ordinal `i`. Ordinals outside 0..=9 are not
/// meaningful; they are mapped to swamp so that the function is total.
pub open spec fn tile_at(i: int) -> TileType {
    if i <= 0 {
        TileType::Ocean
    } else if i == 1 {
        TileType::River
    } else if i == 2 {
        TileType::Beach
    } else if i == 3 {
        TileType::Grassland
    } else if i == 4 {
        TileType::Forest
    } else if i == 5 {
        TileType::Mountain
    } else if i == 6 {
        TileType::Desert
    } else if i == 7 {
        TileType::Tundra
    } else if i == 8 {
        TileType::Snow
    } else {
        TileType::Swamp
    }
}

/// The color a category is painted with, as red, green and blue.
pub open spec fn palette(tile: TileType) -> Seq<u8> {
    match tile {
        TileType::Ocean => seq![2u8, 45u8, 218u8],
        TileType::River => seq![11u8, 131u8, 191u8],
        TileType::Beach => seq![236u8, 219u8, 8u8],
        TileType::Grassland => seq![19u8, 236u8, 8u8],
        TileType::Forest => seq![20u8, 163u8, 10u8],
        TileType::Mountain => seq![64u8, 80u8, 74u8],
        TileType::Desert => seq![218u8, 183u8, 8u8],
        TileType::Tundra => seq![209u8, 234u8, 209u8],
        TileType::Snow => seq![255u8, 255u8, 255u8],
        TileType::Swamp => seq![77u8, 128u8, 99u8],
    }
}

/// The ordinals number the categories: each category has an ordinal from 0
/// to 9 that leads back to it, and each such ordinal belongs to one
/// category.
pub proof fn lemma_tile_ordinals(tile: TileType, i: int)
    ensures
        0 <= tile_index(tile) < 10,
        tile_at(tile_index(tile)) == tile,
        0 <= i < 10 ==> tile_index(tile_at(i)) == i,
{
}

/// Ordinal of a category, for table lookups.
pub fn tile_type_to_int(tile: &TileType) -> (i: usize)
    ensures
        i == tile_index(*tile),
        i < TILE_KINDS,
{
    match tile {
        TileType::Ocean => 0,
        TileType::River => 1,
        TileType::Beach => 2,
        TileType::Grassland => 3,
        TileType::Forest => 4,
        TileType::Mountain => 5,
        TileType::Desert => 6,
        TileType::Tundra => 7,
        TileType::Snow => 8,
        TileType::Swamp => 9,
    }
}

/// The category with the given ordinal.
pub fn tile_type_from_int(i: usize) -> (tile: TileType)
    requires
        i < TILE_KINDS,
    ensures
        tile == tile_at(i as int),
        tile_index(tile) == i,
{
    if i == 0 {
        TileType::Ocean
    } else if i == 1 {
        TileType::River
    } else if i == 2 {
        TileType::Beach
    } else if i == 3 {
        TileType::Grassland
    } else if i == 4 {
        TileType::Forest
    } else if i == 5 {
        TileType::Mountain
    } else if i == 6 {
        TileType::Desert
    } else if i == 7 {
        TileType::Tundra
    } else if i == 8 {
        TileType::Snow
    } else {
        TileType::Swamp
    }
}

/// Color of a category as an RGB triple.
pub fn tile_pixel(tile: &TileType) -> (rgb: [u8; 3])
    ensures
        rgb@ == palette(*tile),
{
    match tile {
        TileType::Ocean => [2, 45, 218],
        TileType::River => [11, 131, 191],
        TileType::Beach => [236, 219, 8],
        TileType::Grassland => [19, 236, 8],
        TileType::Forest => [20, 163, 10],
        TileType::Mountain => [64, 80, 74],
        TileType::Desert => [218, 183, 8],
        TileType::Tundra => [209, 234, 209],
        TileType::Snow => [255, 255, 255],
        TileType::Swamp => [77, 128, 99],
    }
}

} // verus!
