//! The engine's starting state. Weights, amplitudes and trait values are
//! held in hundredths: the value `v` stands for `v / 100`.

use vstd::prelude::*;
use crate::category::CATEGORY_COUNT;

verus! {

/// The denominator of every value in this module.
pub const HUNDREDTHS: u32 = 100;

/// The number of trait fields.
pub const TRAIT_COUNT: usize = 12;

/// Row 0 of the weight matrix: a hand-tuned spread over the traits.
pub open spec fn first_row() -> Seq<u32> {
    seq![40u32, 20, 10, 8, 7, 5, 5, 5, 5, 4, 3, 3]
}

/// The weight of trait `j` in the score of category `i`: row 0 is
/// hand-tuned, and every other row is 10 with 30 at its own index.
pub open spec fn weight(i: int, j: int) -> u32 {
    if i == 0 {
        first_row()[j]
    } else if i == j {
        30
    } else {
        10
    }
}

/// The weight matrix, one row per category and one column per trait.
pub fn weight_matrix() -> (m: Vec<Vec<u32>>)
    ensures
        m.len() == CATEGORY_COUNT,
        forall|i: int| 0 <= i < CATEGORY_COUNT ==> #[trigger] m[i].len() == TRAIT_COUNT,
        forall|i: int, j: int|
            0 <= i < CATEGORY_COUNT && 0 <= j < TRAIT_COUNT ==> #[trigger] m[i][j] == weight(i, j),
{
    let mut m: Vec<Vec<u32>> = Vec::new();
    m.push(vec![40, 20, 10, 8, 7, 5, 5, 5, 5, 4, 3, 3]);
    assert(m[0]@ =~= first_row());
    let mut i: usize = 1;
    while i < CATEGORY_COUNT
        invariant
            1 <= i <= CATEGORY_COUNT,
            m.len() == i,
            forall|k: int| 0 <= k < i ==> #[trigger] m[k].len() == TRAIT_COUNT,
            forall|k: int, j: int|
                0 <= k < i && 0 <= j < TRAIT_COUNT ==> #[trigger] m[k][j] == weight(k, j),
        decreases CATEGORY_COUNT - i,
    {
        let mut row: Vec<u32> = Vec::new();
        let mut j: usize = 0;
        while j < TRAIT_COUNT
            invariant
                1 <= i < CATEGORY_COUNT,
                j <= TRAIT_COUNT,
                row.len() == j,
                forall|k: int| 0 <= k < j ==> #[trigger] row[k] == weight(i as int, k),
            decreases TRAIT_COUNT - j,
        {
            if j == i {
                row.push(30);
            } else {
                row.push(10);
            }
            j += 1;
        }
        m.push(row);
        i += 1;
    }
    m
}

/// The category amplitudes at the start: front-loaded on the first category
/// and decaying across the rest.
pub open spec fn initial_amplitude_values() -> Seq<u32> {
    seq![50u32, 20, 10, 5, 5, 5, 2, 2, 1, 1, 1, 1]
}

/// The amplitude of each category at the start, in the fixed order.
pub fn initial_amplitudes() -> (r: Vec<u32>)
    ensures
        r@ == initial_amplitude_values(),
        r.len() == CATEGORY_COUNT,
        forall|i: int, j: int| 0 <= i <= j < CATEGORY_COUNT ==> r[j] <= r[i],
{
    let r = vec![50, 20, 10, 5, 5, 5, 2, 2, 1, 1, 1, 1];
    assert(r@ =~= initial_amplitude_values());
    r
}

/// The trait values at the start, in the order love, joy, peace, patience,
/// kindness, goodness, faith, gentleness, self-control, hope, blessedness,
/// glory moment.
pub open spec fn initial_trait_values() -> Seq<u32> {
    seq![99u32, 98, 95, 90, 90, 95, 99, 90, 95, 92, 94, 96]
}

/// The value of each trait at the start; every one lies in `90..=99`.
pub fn initial_traits() -> (r: Vec<u32>)
    ensures
        r@ == initial_trait_values(),
        r.len() == TRAIT_COUNT,
        forall|i: int| 0 <= i < TRAIT_COUNT ==> 90 <= #[trigger] r[i] <= 99,
{
    let r = vec![99, 98, 95, 90, 90, 95, 99, 90, 95, 92, 94, 96];
    assert(r@ =~= initial_trait_values());
    r
}

} // verus!
