use rand::rngs::StdRng;
use rand::SeedableRng;
use terrain_map::raster::Raster;
use terrain_map::tile::{tile_pixel, tile_type_from_int, TileType};
use terrain_map::tile_map::{MapError, TileMap};

fn uniform_map(width: usize, height: usize, tile: TileType) -> TileMap {
    let mut rng = StdRng::seed_from_u64(1);
    let mut map = TileMap::new(width, height, &mut rng).unwrap();
    for y in 0..height {
        for x in 0..width {
            map.set_tile(x, y, tile).unwrap();
        }
    }
    map
}

#[test]
fn new_raster_is_black_and_has_its_size() {
    let raster = Raster::new(5, 3).unwrap();
    assert_eq!(raster.width(), 5);
    assert_eq!(raster.height(), 3);
    for y in 0..3 {
        for x in 0..5 {
            assert_eq!(raster.get_pixel(x, y), Some([0, 0, 0]));
        }
    }
}

#[test]
fn raster_without_pixels_can_be_made() {
    let raster = Raster::new(0, 0).unwrap();
    assert_eq!(raster.width(), 0);
    assert_eq!(raster.height(), 0);
    assert_eq!(raster.get_pixel(0, 0), None);
    let flat = Raster::new(4, 0).unwrap();
    assert_eq!(flat.width(), 4);
    assert_eq!(flat.height(), 0);
}

#[test]
fn raster_too_large_for_a_vector_is_refused() {
    assert!(Raster::new(u32::MAX, u32::MAX).is_none());
}

#[test]
fn pixel_outside_the_raster_is_none() {
    let raster = Raster::new(5, 3).unwrap();
    assert_eq!(raster.get_pixel(5, 0), None);
    assert_eq!(raster.get_pixel(0, 3), None);
    assert_eq!(raster.get_pixel(u32::MAX, u32::MAX), None);
    assert!(raster.get_pixel(4, 2).is_some());
}

#[test]
fn ocean_renders_to_the_ocean_color_everywhere() {
    let map = uniform_map(6, 4, TileType::Ocean);
    let mut raster = Raster::new(6, 4).unwrap();
    map.render(&mut raster);
    for y in 0..4 {
        for x in 0..6 {
            assert_eq!(raster.get_pixel(x, y), Some([2, 45, 218]));
        }
    }
}

#[test]
fn every_category_renders_to_its_color() {
    let mut map = uniform_map(10, 1, TileType::Ocean);
    for i in 0..10 {
        map.set_tile(i, 0, tile_type_from_int(i)).unwrap();
    }
    let mut raster = Raster::new(10, 1).unwrap();
    map.render(&mut raster);
    let colors: [[u8; 3]; 10] = [
        [2, 45, 218],
        [11, 131, 191],
        [236, 219, 8],
        [19, 236, 8],
        [20, 163, 10],
        [64, 80, 74],
        [218, 183, 8],
        [209, 234, 209],
        [255, 255, 255],
        [77, 128, 99],
    ];
    for i in 0..10 {
        assert_eq!(raster.get_pixel(i as u32, 0), Some(colors[i]));
    }
}

#[test]
fn render_puts_column_and_row_in_place() {
    let mut map = uniform_map(3, 2, TileType::Ocean);
    map.set_tile(2, 0, TileType::Snow).unwrap();
    map.set_tile(0, 1, TileType::Desert).unwrap();
    let mut raster = Raster::new(3, 2).unwrap();
    map.render(&mut raster);
    assert_eq!(raster.get_pixel(2, 0), Some([255, 255, 255]));
    assert_eq!(raster.get_pixel(0, 1), Some([218, 183, 8]));
    assert_eq!(raster.get_pixel(0, 0), Some([2, 45, 218]));
    assert_eq!(raster.get_pixel(1, 0), Some([2, 45, 218]));
    assert_eq!(raster.get_pixel(1, 1), Some([2, 45, 218]));
    assert_eq!(raster.get_pixel(2, 1), Some([2, 45, 218]));
}

#[test]
fn render_matches_the_map_cell_by_cell() {
    let mut rng = StdRng::seed_from_u64(77);
    let mut map = TileMap::new(9, 7, &mut rng).unwrap();
    map.scramble(terrain_map::relax::Policy::WeightedAffinity, &mut rng);
    let mut raster = Raster::new(9, 7).unwrap();
    map.render(&mut raster);
    for y in 0..7 {
        for x in 0..9 {
            let tile = map.get_tile(x, y).unwrap();
            assert_eq!(raster.get_pixel(x as u32, y as u32), Some(tile_pixel(tile)));
        }
    }
}

#[test]
fn render_leaves_pixels_beyond_the_map_alone() {
    let map = uniform_map(2, 2, TileType::Snow);
    let mut raster = Raster::new(4, 3).unwrap();
    map.render(&mut raster);
    assert_eq!(raster.width(), 4);
    assert_eq!(raster.height(), 3);
    for y in 0..3 {
        for x in 0..4 {
            let expected = if x < 2 && y < 2 { [255, 255, 255] } else { [0, 0, 0] };
            assert_eq!(raster.get_pixel(x, y), Some(expected));
        }
    }
}

#[test]
fn render_twice_shows_the_later_map() {
    let mut raster = Raster::new(2, 2).unwrap();
    uniform_map(2, 2, TileType::Forest).render(&mut raster);
    uniform_map(2, 1, TileType::Swamp).render(&mut raster);
    assert_eq!(raster.get_pixel(0, 0), Some([77, 128, 99]));
    assert_eq!(raster.get_pixel(1, 0), Some([77, 128, 99]));
    assert_eq!(raster.get_pixel(0, 1), Some([20, 163, 10]));
    assert_eq!(raster.get_pixel(1, 1), Some([20, 163, 10]));
}

#[test]
fn try_render_paints_where_the_raster_is_large_enough() {
    let map = uniform_map(3, 2, TileType::Ocean);
    let mut raster = Raster::new(3, 2).unwrap();
    assert_eq!(map.try_render(&mut raster), Ok(()));
    for y in 0..2 {
        for x in 0..3 {
            assert_eq!(raster.get_pixel(x, y), Some([2, 45, 218]));
        }
    }
}

#[test]
fn try_render_refuses_a_raster_that_is_too_small() {
    let map = uniform_map(3, 2, TileType::Ocean);
    let mut narrow = Raster::new(2, 2).unwrap();
    assert_eq!(map.try_render(&mut narrow), Err(MapError::IndexOutOfBounds));
    let mut low = Raster::new(3, 1).unwrap();
    assert_eq!(map.try_render(&mut low), Err(MapError::IndexOutOfBounds));
    for x in 0..2 {
        for y in 0..2 {
            assert_eq!(narrow.get_pixel(x, y), Some([0, 0, 0]));
        }
    }
    for x in 0..3 {
        assert_eq!(low.get_pixel(x, 0), Some([0, 0, 0]));
    }
}
