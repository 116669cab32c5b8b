//! Painting a grid into an RGB raster of the `image` crate.

use vstd::prelude::*;
use image::{ImageBuffer, Rgb};
use crate::tile::{palette, tile_pixel, TileType};
use crate::tile_map::{cell_at, is_rectangle, MapError, TileMap};

verus! {

/// An RGB pixel surface: an `ImageBuffer` of the `image` crate with 8-bit
/// `Rgb` pixels in a `Vec<u8>`. Verus does not look inside; what the buffer
/// holds is spoken of through [`raster_size`] and [`raster_pixels`].
#[verifier::external_body]
pub struct Raster {
    image: ImageBuffer<Rgb<u8>, Vec<u8>>,
}

/// Width and height of the buffer, in pixels.
pub uninterp spec fn raster_size(raster: Raster) -> (int, int);

/// The red, green and blue value of each pixel, keyed by column and row.
pub uninterp spec fn raster_pixels(raster: Raster) -> Map<(int, int), Seq<u8>>;

/// The positions of the pixels of a raster of the given width and height.
pub open spec fn pixel_positions(size: (int, int)) -> Set<(int, int)> {
    Set::new(|p: (int, int)| 0 <= p.0 < size.0 && 0 <= p.1 < size.1)
}

/// Whether a raster of this size can be made: the byte count of one row
/// must fit in `usize`, and the `3 * width * height` bytes of the whole
/// buffer must be no more than a vector can hold.
pub open spec fn raster_fits(width: u32, height: u32) -> bool {
    &&& 3 * width <= usize::MAX
    &&& 3 * width * height <= isize::MAX
}

/// `ImageBuffer::new`: a buffer of the given size with every channel of
/// every pixel zero. The call panics when the byte count overflows or
/// exceeds what a vector can hold, so such sizes are excluded.
#[verifier::external_body]
fn blank_raster(width: u32, height: u32) -> (raster: Raster)
    requires
        raster_fits(width, height),
    ensures
        raster_size(raster) == (width as int, height as int),
        raster_pixels(raster).dom() == pixel_positions((width as int, height as int)),
        forall|x: int, y: int|
            0 <= x < width && 0 <= y < height ==> #[trigger] raster_pixels(raster)[(x, y)]
                == seq![0u8, 0u8, 0u8],
{
    Raster { image: ImageBuffer::new(width, height) }
}

/// `ImageBuffer::dimensions`: the width and the height the buffer was
/// made with. The buffer holds a pixel at each position below them and
/// nowhere else.
#[verifier::external_body]
fn raster_dimensions(raster: &Raster) -> (size: (u32, u32))
    ensures
        (size.0 as int, size.1 as int) == raster_size(*raster),
        raster_pixels(*raster).dom() == pixel_positions((size.0 as int, size.1 as int)),
{
    raster.image.dimensions()
}

/// `ImageBuffer::get_pixel`: the channels of the pixel at column `x` of
/// row `y`. The call panics outside the buffer, so the pixel must lie
/// inside.
#[verifier::external_body]
fn get_rgb(raster: &Raster, x: u32, y: u32) -> (rgb: [u8; 3])
    requires
        x < raster_size(*raster).0,
        y < raster_size(*raster).1,
    ensures
        rgb@ == raster_pixels(*raster)[(x as int, y as int)],
{
    raster.image.get_pixel(x, y).0
}

/// `ImageBuffer::put_pixel`: overwrites the pixel at column `x` of row `y`
/// and leaves the size and every other pixel as they were. The call panics
/// outside the buffer, so the pixel must lie inside.
#[verifier::external_body]
fn put_rgb(raster: &mut Raster, x: u32, y: u32, rgb: [u8; 3])
    requires
        x < raster_size(*old(raster)).0,
        y < raster_size(*old(raster)).1,
    ensures
        raster_size(*final(raster)) == raster_size(*old(raster)),
        raster_pixels(*final(raster)) == raster_pixels(*old(raster)).insert(
            (x as int, y as int),
            rgb@,
        ),
{
    raster.image.put_pixel(x, y, Rgb(rgb))
}

/// The pixels of a raster after every cell of `grid` was painted over
/// `before`: the pixel at column `x` of row `y` has the color of the tile
/// there, and pixels beyond the grid are as before.
pub open spec fn painted(grid: Seq<Seq<TileType>>, before: Map<(int, int), Seq<u8>>) -> Map<
    (int, int),
    Seq<u8>,
> {
    Map::new(
        |p: (int, int)| before.dom().contains(p) || cell_at(grid, p.0, p.1) is Some,
        |p: (int, int)|
            match cell_at(grid, p.0, p.1) {
                Some(tile) => palette(tile),
                None => before[p],
            },
    )
}

/// The pixels of a raster part of the way through painting: the cells in
/// the first `rows` rows, and those of row `rows` before column `cols`,
/// were painted over `before`.
spec fn painted_until(
    grid: Seq<Seq<TileType>>,
    before: Map<(int, int), Seq<u8>>,
    rows: int,
    cols: int,
) -> Map<(int, int), Seq<u8>> {
    let done = |p: (int, int)|
        cell_at(grid, p.0, p.1) is Some && (p.1 < rows || (p.1 == rows && p.0 < cols));
    Map::new(
        |p: (int, int)| before.dom().contains(p) || done(p),
        |p: (int, int)|
            if done(p) {
                painted(grid, before)[p]
            } else {
                before[p]
            },
    )
}

impl Raster {
    /// A black raster of the given size, or `None` where its bytes are
    /// more than a vector can hold.
    pub fn new(width: u32, height: u32) -> (result: Option<Raster>)
        ensures
            result is Some <==> raster_fits(width, height),
            result matches Some(raster) ==> {
                &&& raster_size(raster) == (width as int, height as int)
                &&& raster_pixels(raster).dom() == pixel_positions((width as int, height as int))
                &&& forall|x: int, y: int|
                    0 <= x < width && 0 <= y < height ==> #[trigger] raster_pixels(raster)[(x, y)]
                        == seq![0u8, 0u8, 0u8]
            },
    {
        let fits: bool = match 3usize.checked_mul(width as usize) {
            Some(row_bytes) => match row_bytes.checked_mul(height as usize) {
                Some(bytes) => bytes <= isize::MAX as usize,
                None => false,
            },
            None => false,
        };
        if fits {
            Some(blank_raster(width, height))
        } else {
            None
        }
    }

    /// Width in pixels.
    pub fn width(&self) -> (width: u32)
        ensures
            width == raster_size(*self).0,
    {
        raster_dimensions(self).0
    }

    /// Height in pixels.
    pub fn height(&self) -> (height: u32)
        ensures
            height == raster_size(*self).1,
    {
        raster_dimensions(self).1
    }

    /// The red, green and blue value of the pixel at column `x` of row
    /// `y`, or `None` outside the raster.
    pub fn get_pixel(&self, x: u32, y: u32) -> (result: Option<[u8; 3]>)
        ensures
            result is Some <==> x < raster_size(*self).0 && y < raster_size(*self).1,
            result matches Some(rgb) ==> rgb@ == raster_pixels(*self)[(x as int, y as int)],
    {
        let size = raster_dimensions(self);
        if x < size.0 && y < size.1 {
            Some(get_rgb(self, x, y))
        } else {
            None
        }
    }
}

impl TileMap {
    /// Paints every cell into `image_buffer`, the tile at column `x` of
    /// row `y` onto the pixel at `(x, y)`. The raster must be at least as
    /// wide and as high as the grid.
    pub fn render(&self, image_buffer: &mut Raster)
        requires
            self.wf(),
            self.width() <= raster_size(*old(image_buffer)).0,
            self.height() <= raster_size(*old(image_buffer)).1,
        ensures
            raster_size(*final(image_buffer)) == raster_size(*old(image_buffer)),
            raster_pixels(*final(image_buffer)) == painted(
                self@,
                raster_pixels(*old(image_buffer)),
            ),
    {
        let height: usize = self.get_height();
        let width: usize = self.get_width();
        let size = raster_dimensions(image_buffer);
        let ghost before = raster_pixels(*image_buffer);
        let mut y: usize = 0;
        while y < height
            invariant
                self.wf(),
                height == self.height(),
                width == self.width(),
                y <= height,
                raster_size(*image_buffer) == (size.0 as int, size.1 as int),
                width <= size.0,
                height <= size.1,
                raster_pixels(*image_buffer) == painted_until(self@, before, y as int, 0),
            decreases height - y,
        {
            let mut x: usize = 0;
            while x < width
                invariant
                    self.wf(),
                    height == self.height(),
                    width == self.width(),
                    y < height,
                    x <= width,
                    raster_size(*image_buffer) == (size.0 as int, size.1 as int),
                    width <= size.0,
                    height <= size.1,
                    raster_pixels(*image_buffer) == painted_until(
                        self@,
                        before,
                        y as int,
                        x as int,
                    ),
                decreases width - x,
            {
                if let Ok(tile) = self.get_tile(x, y) {
                    let color = tile_pixel(tile);
                    put_rgb(image_buffer, x as u32, y as u32, color);
                }
                x += 1;
            }
            y += 1;
        }
    }

    /// Paints the grid into `image_buffer` where the raster is at least as
    /// wide and as high as the grid; a smaller raster is left untouched
    /// and reported.
    pub fn try_render(&self, image_buffer: &mut Raster) -> (result: Result<(), MapError>)
        requires
            self.wf(),
        ensures
            result is Ok <==> self.width() <= raster_size(*old(image_buffer)).0 && self.height()
                <= raster_size(*old(image_buffer)).1,
            raster_size(*final(image_buffer)) == raster_size(*old(image_buffer)),
            result is Ok ==> raster_pixels(*final(image_buffer)) == painted(
                self@,
                raster_pixels(*old(image_buffer)),
            ),
            result matches Err(e) ==> e == MapError::IndexOutOfBounds && raster_pixels(
                *final(image_buffer),
            ) == raster_pixels(*old(image_buffer)),
    {
        let size = raster_dimensions(image_buffer);
        if self.get_width() <= size.0 as usize && self.get_height() <= size.1 as usize {
            self.render(image_buffer);
            Ok(())
        } else {
            Err(MapError::IndexOutOfBounds)
        }
    }
}

/// A grid that holds one category throughout paints every pixel it covers
/// in that category's color.
pub proof fn lemma_uniform_grid_paints_one_color(
    grid: Seq<Seq<TileType>>,
    before: Map<(int, int), Seq<u8>>,
    width: int,
    height: int,
    tile: TileType,
)
    requires
        is_rectangle(grid, width, height),
        forall|x: int, y: int| 0 <= x < width && 0 <= y < height ==> #[trigger] grid[y][x] == tile,
    ensures
        forall|x: int, y: int|
            0 <= x < width && 0 <= y < height ==> #[trigger] painted(grid, before)[(x, y)]
                == palette(tile),
{
}

} // verus!
