//! The grid of tiles, its seeding and its relaxation passes.

use vstd::prelude::*;
use rand::rngs::StdRng;
use crate::affinity::affinity;
use crate::dice::draw_below;
use crate::relax::{
    accumulated_weight, can_relax_to, lemma_uniform_neighborhood_weights, random_tile_type,
    Neighbors, Policy,
};
use crate::tile::{tile_index, tile_type_from_int, TileType, TILE_KINDS};

verus! {

/// Why an operation on a [`TileMap`] was refused.
#[derive(Debug, Clone, Copy, PartialEq, Eq, Structural)]
pub enum MapError {
    /// A coordinate lies outside the grid, or a cell lies outside the
    /// raster it was to be painted on.
    IndexOutOfBounds,
    /// A grid was asked for with no columns or no rows.
    InvalidDimensions,
}

/// A rectangular grid of tiles, stored row by row.
#[derive(Debug, Clone, PartialEq, Eq)]
pub struct TileMap {
    tiles: Vec<Vec<TileType>>,
    width: usize,
    height: usize,
}

/// The rows of a grid as sequences.
spec fn rows_of(tiles: Seq<Vec<TileType>>) -> Seq<Seq<TileType>> {
    Seq::new(tiles.len(), |y: int| tiles[y]@)
}

/// `grid` has `height` rows of `width` cells each.
pub open spec fn is_rectangle(grid: Seq<Seq<TileType>>, width: int, height: int) -> bool {
    &&& grid.len() == height
    &&& forall|y: int| 0 <= y < height ==> (#[trigger] grid[y]).len() == width
}

/// The cell at column `x` of row `y`, or `None` where the grid has no such
/// cell.
pub open spec fn cell_at(grid: Seq<Seq<TileType>>, x: int, y: int) -> Option<TileType> {
    if 0 <= y < grid.len() && 0 <= x < grid[y].len() {
        Some(grid[y][x])
    } else {
        None
    }
}

/// The eight cells around `(x, y)`; rows grow downward and columns to the
/// right.
pub open spec fn neighbors_at(grid: Seq<Seq<TileType>>, x: int, y: int) -> Neighbors {
    Neighbors {
        ul: cell_at(grid, x - 1, y - 1),
        up: cell_at(grid, x, y - 1),
        ur: cell_at(grid, x + 1, y - 1),
        l: cell_at(grid, x - 1, y),
        r: cell_at(grid, x + 1, y),
        dl: cell_at(grid, x - 1, y + 1),
        d: cell_at(grid, x, y + 1),
        dr: cell_at(grid, x + 1, y + 1),
    }
}

/// Around a cell of a rectangular grid a neighbor is absent exactly where
/// the grid ends, and every neighbor that is present is the cell one step
/// away in its direction: nothing outside the grid is ever read.
pub proof fn lemma_neighbors_within_grid(
    grid: Seq<Seq<TileType>>,
    width: int,
    height: int,
    x: int,
    y: int,
)
    requires
        is_rectangle(grid, width, height),
        0 <= x < width,
        0 <= y < height,
    ensures
        neighbors_at(grid, x, y) == (Neighbors {
            ul: if x > 0 && y > 0 {
                Some(grid[y - 1][x - 1])
            } else {
                None
            },
            up: if y > 0 {
                Some(grid[y - 1][x])
            } else {
                None
            },
            ur: if x < width - 1 && y > 0 {
                Some(grid[y - 1][x + 1])
            } else {
                None
            },
            l: if x > 0 {
                Some(grid[y][x - 1])
            } else {
                None
            },
            r: if x < width - 1 {
                Some(grid[y][x + 1])
            } else {
                None
            },
            dl: if x > 0 && y < height - 1 {
                Some(grid[y + 1][x - 1])
            } else {
                None
            },
            d: if y < height - 1 {
                Some(grid[y + 1][x])
            } else {
                None
            },
            dr: if x < width - 1 && y < height - 1 {
                Some(grid[y + 1][x + 1])
            } else {
                None
            },
        }),
{
}

/// The only cell of a one-by-one grid has no neighbors, so each candidate
/// gets eight times the weight that grassland lends to it.
pub proof fn lemma_lonely_cell_weights(grid: Seq<Seq<TileType>>, candidate: int)
    requires
        is_rectangle(grid, 1, 1),
    ensures
        neighbors_at(grid, 0, 0) == (Neighbors {
            ul: None,
            up: None,
            ur: None,
            l: None,
            r: None,
            dl: None,
            d: None,
            dr: None,
        }),
        accumulated_weight(neighbors_at(grid, 0, 0), candidate) == 8 * affinity(
            TileType::Grassland,
            candidate,
        ),
{
    lemma_neighbors_within_grid(grid, 1, 1, 0, 0);
    lemma_uniform_neighborhood_weights(neighbors_at(grid, 0, 0), TileType::Grassland, candidate);
}

impl View for TileMap {
    type V = Seq<Seq<TileType>>;

    /// The rows of the grid, top to bottom; `self@[y][x]` is the tile at
    /// column `x` of row `y`.
    closed spec fn view(&self) -> Seq<Seq<TileType>> {
        rows_of(self.tiles@)
    }
}

impl TileMap {
    /// Number of columns.
    pub closed spec fn width(&self) -> int {
        self.width as int
    }

    /// Number of rows.
    pub closed spec fn height(&self) -> int {
        self.height as int
    }

    /// The grid is a non-empty rectangle of the declared size.
    pub open spec fn wf(&self) -> bool {
        &&& 0 < self.width() <= usize::MAX
        &&& 0 < self.height() <= usize::MAX
        &&& is_rectangle(self@, self.width(), self.height())
    }

    /// A grid of `width` columns and `height` rows in which every cell is
    /// drawn from the ten categories. A grid without columns or rows is
    /// refused.
    pub fn new(width: usize, height: usize, rng: &mut StdRng) -> (result: Result<TileMap, MapError>)
        ensures
            result is Err <==> width == 0 || height == 0,
            result matches Err(e) ==> e == MapError::InvalidDimensions,
            result matches Ok(map) ==> {
                &&& map.wf()
                &&& map.width() == width
                &&& map.height() == height
                &&& forall|x: int, y: int|
                    0 <= x < width && 0 <= y < height ==> 0 <= tile_index(#[trigger] map@[y][x])
                        < 10
            },
    {
        if width == 0 || height == 0 {
            return Err(MapError::InvalidDimensions);
        }
        let mut tiles: Vec<Vec<TileType>> = Vec::new();
        let mut y: usize = 0;
        while y < height
            invariant
                y <= height,
                tiles@.len() == y,
                forall|row: int| 0 <= row < y ==> (#[trigger] tiles@[row])@.len() == width,
            decreases height - y,
        {
            let mut row: Vec<TileType> = Vec::new();
            let mut x: usize = 0;
            while x < width
                invariant
                    x <= width,
                    row@.len() == x,
                decreases width - x,
            {
                let tile_type: u32 = draw_below(rng, TILE_KINDS as u32);
                row.push(tile_type_from_int(tile_type as usize));
                x += 1;
            }
            tiles.push(row);
            y += 1;
        }
        Ok(TileMap { tiles, width, height })
    }

    /// The tile at column `x` of row `y`.
    pub fn get_tile(&self, x: usize, y: usize) -> (result: Result<&TileType, MapError>)
        requires
            self.wf(),
        ensures
            result is Ok <==> x < self.width() && y < self.height(),
            result matches Ok(tile) ==> *tile == self@[y as int][x as int],
            result matches Err(e) ==> e == MapError::IndexOutOfBounds,
    {
        if x < self.width && y < self.height {
            Ok(&self.tiles[y][x])
        } else {
            Err(MapError::IndexOutOfBounds)
        }
    }

    /// Replaces the tile at column `x` of row `y`. Outside the grid nothing
    /// is changed.
    pub fn set_tile(&mut self, x: usize, y: usize, tile: TileType) -> (result: Result<(), MapError>)
        requires
            old(self).wf(),
        ensures
            final(self).wf(),
            final(self).width() == old(self).width(),
            final(self).height() == old(self).height(),
            result is Ok <==> x < old(self).width() && y < old(self).height(),
            result is Ok ==> final(self)@ == old(self)@.update(
                y as int,
                old(self)@[y as int].update(x as int, tile),
            ),
            result matches Err(e) ==> e == MapError::IndexOutOfBounds && final(self)@ == old(self)@,
    {
        if x < self.width && y < self.height {
            assert(self@[y as int].len() == self.width);
            self.tiles[y][x] = tile;
            assert(self@ =~= old(self)@.update(
                y as int,
                old(self)@[y as int].update(x as int, tile),
            ));
            Ok(())
        } else {
            Err(MapError::IndexOutOfBounds)
        }
    }

    /// Number of columns.
    pub fn get_width(&self) -> (width: usize)
        ensures
            width == self.width(),
    {
        self.width
    }

    /// Number of rows.
    pub fn get_height(&self) -> (height: usize)
        ensures
            height == self.height(),
    {
        self.height
    }

    /// The eight cells around `(x, y)`, each `None` where it would fall
    /// outside the grid.
    pub fn neighbors(&self, x: usize, y: usize) -> (sample: Neighbors)
        requires
            self.wf(),
            x < self.width(),
            y < self.height(),
        ensures
            sample == neighbors_at(self@, x as int, y as int),
    {
        let height: usize = self.height;
        let width: usize = self.width;
        let mut ul: Option<TileType> = None;
        let mut up: Option<TileType> = None;
        let mut ur: Option<TileType> = None;
        if y > 0 {
            let up_row: &Vec<TileType> = &self.tiles[y - 1];
            if x > 0 {
                ul = Some(up_row[x - 1]);
            }
            up = Some(up_row[x]);
            if x < width - 1 {
                ur = Some(up_row[x + 1]);
            }
        }
        let mut l: Option<TileType> = None;
        let mut r: Option<TileType> = None;
        if x > 0 {
            l = Some(self.tiles[y][x - 1]);
        }
        if x < width - 1 {
            r = Some(self.tiles[y][x + 1]);
        }
        let mut dl: Option<TileType> = None;
        let mut d: Option<TileType> = None;
        let mut dr: Option<TileType> = None;
        if y < height - 1 {
            let down_row: &Vec<TileType> = &self.tiles[y + 1];
            if x > 0 {
                dl = Some(down_row[x - 1]);
            }
            d = Some(down_row[x]);
            if x < width - 1 {
                dr = Some(down_row[x + 1]);
            }
        }
        Neighbors { ul, up, ur, l, r, dl, d, dr }
    }

    /// One synchronous relaxation pass: every cell is replaced by what the
    /// rule yields for its neighbors as they were before the pass.
    pub fn scramble(&mut self, policy: Policy, rng: &mut StdRng)
        requires
            old(self).wf(),
        ensures
            final(self).wf(),
            final(self).width() == old(self).width(),
            final(self).height() == old(self).height(),
            forall|x: int, y: int|
                0 <= x < old(self).width() && 0 <= y < old(self).height() ==> can_relax_to(
                    policy,
                    neighbors_at(old(self)@, x, y),
                    #[trigger] final(self)@[y][x],
                ),
    {
        let height: usize = self.height;
        let width: usize = self.width;
        let mut next: Vec<Vec<TileType>> = Vec::new();
        let mut y: usize = 0;
        while y < height
            invariant
                *self == *old(self),
                self.wf(),
                height == self.height(),
                width == self.width(),
                y <= height,
                next@.len() == y,
                forall|row: int| 0 <= row < y ==> (#[trigger] next@[row])@.len() == width,
                forall|col: int, row: int|
                    0 <= col < width && 0 <= row < y ==> can_relax_to(
                        policy,
                        neighbors_at(self@, col, row),
                        #[trigger] next@[row]@[col],
                    ),
            decreases height - y,
        {
            let mut row: Vec<TileType> = Vec::new();
            let mut x: usize = 0;
            while x < width
                invariant
                    *self == *old(self),
                    self.wf(),
                    height == self.height(),
                    width == self.width(),
                    y < height,
                    x <= width,
                    row@.len() == x,
                    forall|col: int|
                        0 <= col < x ==> can_relax_to(
                            policy,
                            neighbors_at(self@, col, y as int),
                            #[trigger] row@[col],
                        ),
                decreases width - x,
            {
                let sample = self.neighbors(x, y);
                row.push(random_tile_type(policy, &sample, rng));
                x += 1;
            }
            next.push(row);
            y += 1;
        }
        self.tiles = next;
    }
}

} // verus!
