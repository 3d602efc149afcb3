//! Layout of the sensitivity grid.
//!
//! The sensitivity evaluator walks the cartesian product of two value
//! ranges and records one reading per pair into a matrix: the first range
//! indexes the rows, the second the columns. The walk order and the shape
//! of the grid are fixed here: row-major, one cell for each pair, so the
//! matrix built from it has exactly `rows x cols` entries.

use vstd::prelude::*;
use vstd::arithmetic::div_mod::{
    lemma_fundamental_div_mod_converse_div, lemma_fundamental_div_mod_converse_mod,
};
use vstd::arithmetic::mul::{lemma_mul_inequality, lemma_mul_is_distributive_add_other_way};

verus! {

/// The cells of a `rows x cols` grid in row-major order: cell `k` lies in
/// row `k / cols`, column `k % cols`.
pub fn grid_cells(rows: usize, cols: usize) -> (cells: Vec<(usize, usize)>)
    requires
        rows * cols <= usize::MAX,
    ensures
        cells@.len() == rows * cols,
        forall|k: int|
            0 <= k < cells@.len() ==> (#[trigger] cells@[k]).0 == k / (cols as int)
                && cells@[k].1 == k % (cols as int),
        forall|k: int|
            0 <= k < cells@.len() ==> (#[trigger] cells@[k]).0 < rows && cells@[k].1 < cols,
{
    let mut cells: Vec<(usize, usize)> = Vec::new();
    let mut i: usize = 0;
    while i < rows
        invariant
            i <= rows,
            rows * cols <= usize::MAX,
            cells@.len() == i * cols,
            forall|k: int|
                0 <= k < cells@.len() ==> (#[trigger] cells@[k]).0 == k / (cols as int)
                    && cells@[k].1 == k % (cols as int),
            forall|k: int|
                0 <= k < cells@.len() ==> (#[trigger] cells@[k]).0 < rows && cells@[k].1 < cols,
        decreases rows - i,
    {
        let mut j: usize = 0;
        while j < cols
            invariant
                i < rows,
                j <= cols,
                rows * cols <= usize::MAX,
                cells@.len() == i * cols + j,
                forall|k: int|
                    0 <= k < cells@.len() ==> (#[trigger] cells@[k]).0 == k / (cols as int)
                        && cells@[k].1 == k % (cols as int),
                forall|k: int|
                    0 <= k < cells@.len() ==> (#[trigger] cells@[k]).0 < rows && cells@[k].1 < cols,
            decreases cols - j,
        {
            proof {
                lemma_mul_is_distributive_add_other_way(cols as int, i as int, 1);
                lemma_mul_inequality((i + 1) as int, rows as int, cols as int);
                lemma_fundamental_div_mod_converse_div(
                    (i * cols + j) as int,
                    cols as int,
                    i as int,
                    j as int,
                );
                lemma_fundamental_div_mod_converse_mod(
                    (i * cols + j) as int,
                    cols as int,
                    i as int,
                    j as int,
                );
            }
            cells.push((i, j));
            j = j + 1;
        }
        i = i + 1;
        proof {
            lemma_mul_is_distributive_add_other_way(cols as int, (i - 1) as int, 1);
        }
    }
    cells
}

} // verus!
