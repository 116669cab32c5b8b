use terrain_map::sampling::{sum_weights, weighted_pick};

#[test]
fn sum_of_weights_is_exact() {
    assert_eq!(sum_weights(&[8, 240, 80, 800, 640, 160, 40, 120, 8, 240]), 2336);
    assert_eq!(sum_weights(&[0; 10]), 0);
    assert_eq!(sum_weights(&[0, 0, 0, 0, 0, 0, 0, 0, 0, 7]), 7);
}

#[test]
fn sum_of_weights_does_not_wrap() {
    assert_eq!(sum_weights(&[u32::MAX; 10]), 10 * (u32::MAX as u64));
}

#[test]
fn pick_walks_the_cumulative_sums() {
    let weights = [8, 240, 80, 800, 640, 160, 40, 120, 8, 240];
    assert_eq!(weighted_pick(&weights, 0), 0);
    assert_eq!(weighted_pick(&weights, 7), 0);
    assert_eq!(weighted_pick(&weights, 8), 1);
    assert_eq!(weighted_pick(&weights, 247), 1);
    assert_eq!(weighted_pick(&weights, 248), 2);
    assert_eq!(weighted_pick(&weights, 327), 2);
    assert_eq!(weighted_pick(&weights, 328), 3);
    assert_eq!(weighted_pick(&weights, 1127), 3);
    assert_eq!(weighted_pick(&weights, 1128), 4);
    assert_eq!(weighted_pick(&weights, 1767), 4);
    assert_eq!(weighted_pick(&weights, 1768), 5);
    assert_eq!(weighted_pick(&weights, 1928), 6);
    assert_eq!(weighted_pick(&weights, 1968), 7);
    assert_eq!(weighted_pick(&weights, 2088), 8);
    assert_eq!(weighted_pick(&weights, 2095), 8);
    assert_eq!(weighted_pick(&weights, 2096), 9);
    assert_eq!(weighted_pick(&weights, 2335), 9);
}

#[test]
fn pick_skips_categories_without_weight() {
    let weights = [0, 0, 5, 0, 0, 3, 0, 0, 0, 0];
    assert_eq!(weighted_pick(&weights, 0), 2);
    assert_eq!(weighted_pick(&weights, 4), 2);
    assert_eq!(weighted_pick(&weights, 5), 5);
    assert_eq!(weighted_pick(&weights, 7), 5);
}

#[test]
fn pick_of_a_single_weight_is_that_category() {
    for k in 0..10 {
        let mut weights = [0; 10];
        weights[k] = 1;
        assert_eq!(weighted_pick(&weights, 0), k);
    }
}

#[test]
fn each_category_is_picked_by_as_many_draws_as_its_weight() {
    let weights = [3, 0, 7, 1, 0, 0, 12, 5, 0, 2];
    let total = sum_weights(&weights);
    assert_eq!(total, 30);
    let mut counts = [0u32; 10];
    for draw in 0..total {
        counts[weighted_pick(&weights, draw)] += 1;
    }
    assert_eq!(counts, weights);
}

#[test]
fn pick_beyond_the_range_of_u32() {
    let weights = [u32::MAX; 10];
    assert_eq!(weighted_pick(&weights, u32::MAX as u64 - 1), 0);
    assert_eq!(weighted_pick(&weights, u32::MAX as u64), 1);
    assert_eq!(weighted_pick(&weights, 10 * (u32::MAX as u64) - 1), 9);
}
