use terrain_map::affinity::{add_prob_arrays, affinity_row, ADJ_MATRIX};
use terrain_map::tile::{tile_type_from_int, TileType};

#[test]
fn rows_are_read_by_the_neighbor() {
    assert_eq!(affinity_row(&TileType::Ocean), [70, 10, 20, 0, 0, 0, 0, 0, 0, 0]);
    assert_eq!(affinity_row(&TileType::River), [10, 100, 5, 75, 50, 30, 5, 5, 5, 20]);
    assert_eq!(affinity_row(&TileType::Beach), [100, 5, 150, 70, 20, 50, 70, 1, 1, 1]);
    assert_eq!(affinity_row(&TileType::Grassland), [1, 30, 10, 100, 80, 20, 5, 15, 1, 30]);
    assert_eq!(affinity_row(&TileType::Forest), [1, 40, 1, 50, 100, 20, 1, 20, 1, 20]);
    assert_eq!(affinity_row(&TileType::Mountain), [1, 40, 1, 20, 30, 100, 10, 30, 50, 1]);
    assert_eq!(affinity_row(&TileType::Desert), [1, 10, 0, 20, 0, 0, 100, 0, 0, 0]);
    assert_eq!(affinity_row(&TileType::Tundra), [0, 5, 0, 15, 30, 30, 0, 100, 80, 60]);
    assert_eq!(affinity_row(&TileType::Snow), [0, 15, 0, 0, 0, 80, 0, 0, 120, 0]);
    assert_eq!(affinity_row(&TileType::Swamp), [0, 30, 0, 30, 30, 0, 0, 50, 0, 100]);
}

#[test]
fn table_is_not_symmetric() {
    assert_eq!(ADJ_MATRIX[0][2], 20);
    assert_eq!(ADJ_MATRIX[2][0], 100);
}

#[test]
fn every_category_favors_itself() {
    for i in 0..10 {
        let row = affinity_row(&tile_type_from_int(i));
        assert!(row[i] >= 70);
        assert_eq!(row, ADJ_MATRIX[i]);
    }
}

#[test]
fn no_entry_exceeds_150() {
    for row in ADJ_MATRIX.iter() {
        for entry in row.iter() {
            assert!(*entry <= 150);
        }
    }
}

#[test]
fn add_prob_arrays_adds_element_by_element() {
    let mut weights = [1, 2, 3, 4, 5, 6, 7, 8, 9, 10];
    add_prob_arrays(&mut weights, &[100, 90, 80, 70, 60, 50, 40, 30, 20, 10]);
    assert_eq!(weights, [101, 92, 83, 74, 65, 56, 47, 38, 29, 20]);
}

#[test]
fn add_prob_arrays_onto_zeros_gives_the_addend() {
    let mut weights = [0; 10];
    add_prob_arrays(&mut weights, &[0; 10]);
    assert_eq!(weights, [0; 10]);
    add_prob_arrays(&mut weights, &affinity_row(&TileType::Snow));
    assert_eq!(weights, [0, 15, 0, 0, 0, 80, 0, 0, 120, 0]);
}

#[test]
fn add_prob_arrays_reaches_the_largest_value() {
    let mut weights = [u32::MAX - 1; 10];
    add_prob_arrays(&mut weights, &[1; 10]);
    assert_eq!(weights, [u32::MAX; 10]);
}
