//! Nested construction: a generator whose every invocation runs a whole
//! construction of its own. Each run owns an independent builder and
//! cursor, so an inner run can neither observe nor disturb the outer one;
//! the proof of [`build_pair_grid`] goes through on the contracts alone.

use vstd::prelude::*;

use crate::construct::build;
use crate::generator::Generator;
use crate::laws::lemma_elementwise;

verus! {

/// Generator of the cells of one row: at index `j` it yields the pair
/// `(row, j)`. Its state never changes.
pub struct PairCell {
    /// The row index every produced pair carries.
    pub row: usize,
}

impl Generator<(usize, usize)> for PairCell {
    open spec fn ens(&self, i: int, next: Self, t: (usize, usize)) -> bool {
        next == *self && t == ((self.row, i as usize))
    }

    fn invoke(&mut self, i: usize) -> (t: (usize, usize)) {
        (self.row, i)
    }
}

/// Generator of the rows of a grid: at index `i` it runs a nested
/// construction that builds the row of all pairs `(i, j)` for
/// `j` below `width`. Its own state never changes either.
pub struct PairRow {
    /// How many cells each produced row holds.
    pub width: usize,
}

impl Generator<Vec<(usize, usize)>> for PairRow {
    open spec fn ens(&self, i: int, next: Self, row: Vec<(usize, usize)>) -> bool {
        next == *self && row@.len() == self.width && (forall|j: int|
            0 <= j < self.width ==> row@[j] == ((i as usize, j as usize)))
    }

    fn invoke(&mut self, i: usize) -> (row: Vec<(usize, usize)>) {
        let mut cell = PairCell { row: i };
        let row = build(self.width, &mut cell);
        proof {
            lemma_elementwise(
                PairCell { row: i },
                cell,
                row@,
                0,
                (|j: int, t: (usize, usize)| t == ((i, j as usize))),
            );
        }
        row
    }
}

/// Builds the `rows` by `cols` grid of index pairs: element `(i, j)` of
/// the grid is the pair `(i, j)`. The outer construction invokes a full
/// inner construction once per row, so the function exercises reentrancy:
/// outer and inner runs are verified independent.
pub fn build_pair_grid(rows: usize, cols: usize) -> (grid: Vec<Vec<(usize, usize)>>)
    ensures
        grid@.len() == rows,
        forall|i: int| 0 <= i < rows ==> #[trigger] grid@[i]@.len() == cols,
        forall|i: int, j: int|
            0 <= i < rows && 0 <= j < cols ==> #[trigger] grid@[i]@[j] == ((
                i as usize,
                j as usize,
            )),
{
    let mut row_gen = PairRow { width: cols };
    let grid = build(rows, &mut row_gen);
    proof {
        lemma_elementwise(
            PairRow { width: cols },
            row_gen,
            grid@,
            0,
            (|i: int, row: Vec<(usize, usize)>|
                row@.len() == cols && (forall|j: int|
                    0 <= j < cols ==> row@[j] == ((i as usize, j as usize)))),
        );
    }
    grid
}

} // verus!
