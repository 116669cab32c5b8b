use terrain_map::tile::{tile_pixel, tile_type_from_int, tile_type_to_int, TileType, TILE_KINDS};

fn all_tiles() -> [TileType; 10] {
    [
        TileType::Ocean,
        TileType::River,
        TileType::Beach,
        TileType::Grassland,
        TileType::Forest,
        TileType::Mountain,
        TileType::Desert,
        TileType::Tundra,
        TileType::Snow,
        TileType::Swamp,
    ]
}

#[test]
fn there_are_ten_categories() {
    assert_eq!(TILE_KINDS, 10);
    assert_eq!(all_tiles().len(), TILE_KINDS);
}

#[test]
fn ordinals_follow_the_canonical_order() {
    assert_eq!(tile_type_to_int(&TileType::Ocean), 0);
    assert_eq!(tile_type_to_int(&TileType::River), 1);
    assert_eq!(tile_type_to_int(&TileType::Beach), 2);
    assert_eq!(tile_type_to_int(&TileType::Grassland), 3);
    assert_eq!(tile_type_to_int(&TileType::Forest), 4);
    assert_eq!(tile_type_to_int(&TileType::Mountain), 5);
    assert_eq!(tile_type_to_int(&TileType::Desert), 6);
    assert_eq!(tile_type_to_int(&TileType::Tundra), 7);
    assert_eq!(tile_type_to_int(&TileType::Snow), 8);
    assert_eq!(tile_type_to_int(&TileType::Swamp), 9);
}

#[test]
fn ordinal_leads_back_to_its_category() {
    let tiles = all_tiles();
    for (i, tile) in tiles.iter().enumerate() {
        assert_eq!(tile_type_from_int(i), *tile);
        assert_eq!(tile_type_to_int(&tile_type_from_int(i)), i);
        assert_eq!(tile_type_from_int(tile_type_to_int(tile)), *tile);
    }
}

#[test]
fn palette_is_exact() {
    assert_eq!(tile_pixel(&TileType::Ocean), [2, 45, 218]);
    assert_eq!(tile_pixel(&TileType::River), [11, 131, 191]);
    assert_eq!(tile_pixel(&TileType::Beach), [236, 219, 8]);
    assert_eq!(tile_pixel(&TileType::Grassland), [19, 236, 8]);
    assert_eq!(tile_pixel(&TileType::Forest), [20, 163, 10]);
    assert_eq!(tile_pixel(&TileType::Mountain), [64, 80, 74]);
    assert_eq!(tile_pixel(&TileType::Desert), [218, 183, 8]);
    assert_eq!(tile_pixel(&TileType::Tundra), [209, 234, 209]);
    assert_eq!(tile_pixel(&TileType::Snow), [255, 255, 255]);
    assert_eq!(tile_pixel(&TileType::Swamp), [77, 128, 99]);
}

#[test]
fn palette_colors_are_distinct() {
    let tiles = all_tiles();
    for a in 0..tiles.len() {
        for b in (a + 1)..tiles.len() {
            assert_ne!(tile_pixel(&tiles[a]), tile_pixel(&tiles[b]));
        }
    }
}
