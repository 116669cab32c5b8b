//! Drawing one of ten categories in proportion to a vector of weights.

use vstd::prelude::*;

verus! {

/// A weight vector as a sequence of mathematical integers.
pub open spec fn weights_of(weights: [u32; 10]) -> Seq<int> {
    Seq::new(10, |k: int| weights[k] as int)
}

/// Sum of the first `n` weights.
pub open spec fn prefix_sum(weights: Seq<int>, n: int) -> int
    decreases n,
{
    if n <= 0 {
        0
    } else {
        prefix_sum(weights, n - 1) + weights[n - 1]
    }
}

/// Sum of all weights.
pub open spec fn total_weight(weights: Seq<int>) -> int {
    prefix_sum(weights, weights.len() as int)
}

/// No weight is negative.
pub open spec fn non_negative(weights: Seq<int>) -> bool {
    forall|i: int| 0 <= i < weights.len() ==> weights[i] >= 0
}

/// `k` is the first position whose cumulative weight exceeds `draw`: the
/// weights before `k` sum to at most `draw`, and with the weight at `k`
/// they sum to more.
pub open spec fn is_weighted_choice(weights: Seq<int>, draw: int, k: int) -> bool {
    &&& 0 <= k < weights.len()
    &&& prefix_sum(weights, k) <= draw < prefix_sum(weights, k + 1)
}

/// The position that `draw` selects.
pub open spec fn weighted_choice(weights: Seq<int>, draw: int) -> int {
    choose|k: int| is_weighted_choice(weights, draw, k)
}

/// Cumulative sums of non-negative weights never decrease.
pub proof fn lemma_prefix_sum_monotone(weights: Seq<int>, a: int, b: int)
    requires
        non_negative(weights),
        0 <= a <= b <= weights.len(),
    ensures
        prefix_sum(weights, a) <= prefix_sum(weights, b),
    decreases b - a,
{
    if a < b {
        lemma_prefix_sum_monotone(weights, a, b - 1);
    }
}

/// Every draw below the total selects some position.
pub proof fn lemma_weighted_choice_exists(weights: Seq<int>, draw: int)
    requires
        non_negative(weights),
        0 <= draw < total_weight(weights),
    ensures
        is_weighted_choice(weights, draw, weighted_choice(weights, draw)),
{
    let k: int = first_exceeding(weights, draw, weights.len() as int);
    assert(is_weighted_choice(weights, draw, k));
}

/// Some position below `n` whose cumulative weight first exceeds `draw`.
proof fn first_exceeding(weights: Seq<int>, draw: int, n: int) -> (k: int)
    requires
        0 <= n <= weights.len(),
        0 <= draw < prefix_sum(weights, n),
    ensures
        is_weighted_choice(weights, draw, k),
    decreases n,
{
    if draw < prefix_sum(weights, n - 1) {
        first_exceeding(weights, draw, n - 1)
    } else {
        n - 1
    }
}

/// A draw selects position `k` exactly when it falls in the band of width
/// `weights[k]` that starts at the sum of the weights before `k`. So of the
/// draws below the total, exactly `weights[k]` select `k`.
pub proof fn lemma_weighted_choice_band(weights: Seq<int>, draw: int, k: int)
    requires
        non_negative(weights),
        0 <= k < weights.len(),
    ensures
        is_weighted_choice(weights, draw, k) <==> (0 <= draw < total_weight(weights)
            && weighted_choice(weights, draw) == k),
        prefix_sum(weights, k + 1) - prefix_sum(weights, k) == weights[k],
{
    if is_weighted_choice(weights, draw, k) {
        lemma_prefix_sum_monotone(weights, 0, k);
        lemma_prefix_sum_monotone(weights, k + 1, weights.len() as int);
        let c: int = weighted_choice(weights, draw);
        assert(is_weighted_choice(weights, draw, c));
        if c < k {
            lemma_prefix_sum_monotone(weights, c + 1, k);
        } else if k < c {
            lemma_prefix_sum_monotone(weights, k + 1, c);
        }
    } else if 0 <= draw < total_weight(weights) {
        lemma_weighted_choice_exists(weights, draw);
    }
}

/// Sum of the ten weights.
pub fn sum_weights(weights: &[u32; 10]) -> (total: u64)
    ensures
        total == total_weight(weights_of(*weights)),
{
    let mut total: u64 = 0;
    let mut i: usize = 0;
    while i < 10
        invariant
            i <= 10,
            total == prefix_sum(weights_of(*weights), i as int),
            total <= i * u32::MAX,
        decreases 10 - i,
    {
        total = total + weights[i] as u64;
        i += 1;
    }
    total
}

/// Walks the weights in order, keeping a running sum, and returns the first
/// position at which the running sum exceeds `draw`.
pub fn weighted_pick(weights: &[u32; 10], draw: u64) -> (k: usize)
    requires
        draw < total_weight(weights_of(*weights)),
    ensures
        is_weighted_choice(weights_of(*weights), draw as int, k as int),
        k == weighted_choice(weights_of(*weights), draw as int),
{
    let ghost w = weights_of(*weights);
    let mut running: u64 = 0;
    let mut k: usize = 0;
    while k < 9
        invariant
            k <= 9,
            w == weights_of(*weights),
            running == prefix_sum(w, k as int),
            running <= draw,
            running <= k * u32::MAX,
        decreases 9 - k,
    {
        let next: u64 = running + weights[k] as u64;
        if draw < next {
            proof {
                lemma_weighted_choice_band(w, draw as int, k as int);
            }
            return k;
        }
        running = next;
        k += 1;
    }
    // The first nine positions were passed over and the draw lies below the
    // total, so it falls in the band of the last one.
    proof {
        lemma_weighted_choice_band(w, draw as int, 9);
    }
    9
}

} // verus!
