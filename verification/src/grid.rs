//! The automaton grid: a fixed `rows x cols` matrix of boolean cells
//! (true = alive, false = dead) evolving under Conway's Life rule with a
//! non-toroidal boundary (off-grid neighbors simply do not count).

use vstd::prelude::*;
use crate::positions::GridPosition;

verus! {

/// A grid view `g` is a rectangular `rows x cols` matrix.
pub open spec fn rect(g: Seq<Seq<bool>>, rows: int, cols: int) -> bool {
    g.len() == rows && forall|i: int| 0 <= i < rows ==> (#[trigger] g[i]).len() == cols
}

/// The state of the cell at `(r, c)`; positions outside the matrix count as
/// dead, which encodes the non-toroidal boundary policy.
pub open spec fn cell_at(g: Seq<Seq<bool>>, r: int, c: int) -> bool {
    0 <= r < g.len() && 0 <= c < g[r].len() && g[r][c]
}

/// 1 for a live cell, 0 for a dead one.
pub open spec fn live(g: Seq<Seq<bool>>, r: int, c: int) -> int {
    if cell_at(g, r, c) { 1 } else { 0 }
}

/// Number of live cells in the Moore neighborhood of `(r, c)`: the up-to-8
/// adjacent cells, fewer at the matrix border.
pub open spec fn live_neighbors(g: Seq<Seq<bool>>, r: int, c: int) -> int {
    live(g, r - 1, c - 1) + live(g, r - 1, c) + live(g, r - 1, c + 1)
    + live(g, r, c - 1) + live(g, r, c + 1)
    + live(g, r + 1, c - 1) + live(g, r + 1, c) + live(g, r + 1, c + 1)
}

/// The Life rule for one cell: a live cell survives with exactly 2 or 3 live
/// neighbors; a dead cell becomes live with exactly 3; all else dies.
pub open spec fn next_cell(g: Seq<Seq<bool>>, r: int, c: int) -> bool {
    live_neighbors(g, r, c) == 3 || (cell_at(g, r, c) && live_neighbors(g, r, c) == 2)
}

/// One full generation step of the whole matrix, computed entirely from the
/// old matrix.
pub open spec fn step(g: Seq<Seq<bool>>) -> Seq<Seq<bool>> {
    Seq::new(g.len(), |r: int| Seq::new(g[r].len(), |c: int| next_cell(g, r, c)))
}

/// The grid view after flipping the cell at `(r, c)`.
pub open spec fn toggled(g: Seq<Seq<bool>>, r: int, c: int) -> Seq<Seq<bool>> {
    g.update(r, g[r].update(c, !g[r][c]))
}

/// Row-major order on grid positions: by row (`.1`), then by column (`.0`).
pub open spec fn row_major_lt(a: GridPosition, b: GridPosition) -> bool {
    a.1 < b.1 || (a.1 == b.1 && a.0 < b.0)
}

pub struct GameGrid {
    rows: usize,
    cols: usize,
    values: Vec<Vec<bool>>,
}

impl View for GameGrid {
    type V = Seq<Seq<bool>>;

    closed spec fn view(&self) -> Seq<Seq<bool>> {
        self.values@.map_values(|row: Vec<bool>| row@)
    }
}

impl GameGrid {
    pub closed spec fn spec_rows(&self) -> int {
        self.rows as int
    }

    pub closed spec fn spec_cols(&self) -> int {
        self.cols as int
    }

    /// Well-formedness: the matrix really is `rows x cols` with both
    /// dimensions at least 1, fixed at construction.
    pub open spec fn wf(&self) -> bool {
        &&& 1 <= self.spec_rows()
        &&& 1 <= self.spec_cols()
        &&& rect(self@, self.spec_rows(), self.spec_cols())
    }

    pub fn new(rows: usize, cols: usize) -> (grid: Self)
        requires
            1 <= rows,
            1 <= cols,
        ensures
            grid.wf(),
            grid.spec_rows() == rows,
            grid.spec_cols() == cols,
            forall|r: int, c: int| 0 <= r < rows && 0 <= c < cols ==> !cell_at(grid@, r, c),
    {
        let values = empty_matrix(rows, cols);
        GameGrid { rows, cols, values }
    }

    pub fn get_shape(&self) -> (shape: (usize, usize))
        ensures
            shape.0 == self.spec_rows(),
            shape.1 == self.spec_cols(),
    {
        (self.rows, self.cols)
    }

    fn is_in(&self, row: usize, col: usize) -> (r: bool)
        ensures
            r == (row < self.spec_rows() && col < self.spec_cols()),
    {
        row < self.rows && col < self.cols
    }

    /// Reads one cell; out-of-bounds indices are reported with `None`, never
    /// a crash.
    pub fn get(&self, row: usize, col: usize) -> (r: Option<bool>)
        requires
            self.wf(),
        ensures
            r is Some <==> row < self.spec_rows() && col < self.spec_cols(),
            r is Some ==> r == Some(cell_at(self@, row as int, col as int)),
    {
        if self.is_in(row, col) {
            proof {
                assert(self.values@[row as int]@ == self@[row as int]);
            }
            return Some(self.values[row][col]);
        }
        None
    }

    /// Flips one cell; fails with an out-of-bounds error (and no other side
    /// effect) if the indices exceed the dimensions.
    pub fn switch_state_at(&mut self, row: usize, col: usize) -> (r: Result<(), ()>)
        requires
            old(self).wf(),
        ensures
            final(self).wf(),
            final(self).spec_rows() == old(self).spec_rows(),
            final(self).spec_cols() == old(self).spec_cols(),
            r is Ok <==> row < old(self).spec_rows() && col < old(self).spec_cols(),
            r is Ok ==> final(self)@ == toggled(old(self)@, row as int, col as int),
            r is Err ==> final(self)@ == old(self)@,
    {
        if self.is_in(row, col) {
            proof {
                assert(self.values@[row as int]@ == self@[row as int]);
            }
            let state = self.values[row][col];
            self.values[row][col] = !state;
            proof {
                assert(self@ =~~= toggled(old(self)@, row as int, col as int));
            }
            return Ok(());
        }
        Err(())
    }

    /// Sets every cell to dead; always succeeds.
    pub fn clear(&mut self)
        requires
            old(self).wf(),
        ensures
            final(self).wf(),
            final(self).spec_rows() == old(self).spec_rows(),
            final(self).spec_cols() == old(self).spec_cols(),
            forall|r: int, c: int|
                0 <= r < old(self).spec_rows() && 0 <= c < old(self).spec_cols()
                    ==> !cell_at(final(self)@, r, c),
    {
        self.values = empty_matrix(self.rows, self.cols);
    }

    /// Counts the live cells among the up-to-8 Moore neighbors of an
    /// in-bounds cell; border cells have fewer neighbors (no wrap-around).
    fn alive_neighbors(&self, row: usize, col: usize) -> (count: u8)
        requires
            self.wf(),
            row < self.spec_rows(),
            col < self.spec_cols(),
        ensures
            count == live_neighbors(self@, row as int, col as int),
    {
        proof {
            assert forall|i: int| 0 <= i < self@.len() implies
                (#[trigger] self.values@[i])@ == self@[i] by {}
        }
        let mut count: u8 = 0;
        if row > 0 && col > 0 && self.values[row - 1][col - 1] {
            count += 1;
        }
        if row > 0 && self.values[row - 1][col] {
            count += 1;
        }
        if row > 0 && col + 1 < self.cols && self.values[row - 1][col + 1] {
            count += 1;
        }
        if col > 0 && self.values[row][col - 1] {
            count += 1;
        }
        if col + 1 < self.cols && self.values[row][col + 1] {
            count += 1;
        }
        if row + 1 < self.rows && col > 0 && self.values[row + 1][col - 1] {
            count += 1;
        }
        if row + 1 < self.rows && self.values[row + 1][col] {
            count += 1;
        }
        if row + 1 < self.rows && col + 1 < self.cols && self.values[row + 1][col + 1] {
            count += 1;
        }
        count
    }

    /// Replaces the whole matrix with the next generation under the Life
    /// rule, computed entirely from the current matrix and swapped in as a
    /// single unit.
    pub fn next_generation(&mut self)
        requires
            old(self).wf(),
        ensures
            final(self).wf(),
            final(self).spec_rows() == old(self).spec_rows(),
            final(self).spec_cols() == old(self).spec_cols(),
            final(self)@ == step(old(self)@),
    {
        let rows: usize = self.rows;
        let cols: usize = self.cols;
        let mut new_values: Vec<Vec<bool>> = Vec::new();
        for row in 0..rows
            invariant
                self == old(self),
                self.wf(),
                rows == self.spec_rows(),
                cols == self.spec_cols(),
                new_values@.len() == row,
                forall|i: int| 0 <= i < row ==> (#[trigger] new_values@[i])@.len() == cols,
                forall|i: int, j: int|
                    0 <= i < row && 0 <= j < cols
                        ==> new_values@[i]@[j] == next_cell(self@, i, j),
        {
            let mut new_row: Vec<bool> = Vec::new();
            for col in 0..cols
                invariant
                    self == old(self),
                    self.wf(),
                    rows == self.spec_rows(),
                    cols == self.spec_cols(),
                    row < rows,
                    new_row@.len() == col,
                    forall|j: int| 0 <= j < col ==> new_row@[j] == next_cell(self@, row as int, j),
            {
                let alive_neighbors: u8 = self.alive_neighbors(row, col);
                proof {
                    assert(self.values@[row as int]@ == self@[row as int]);
                }
                let next = alive_neighbors == 3
                    || (self.values[row][col] && alive_neighbors == 2);
                new_row.push(next);
            }
            new_values.push(new_row);
        }
        self.values = new_values;
        proof {
            assert(self@ =~~= step(old(self)@));
        }
    }

    /// Enumerates all live cells, as grid positions in row-major order; the
    /// renderer around the library converts each to screen coordinates.
    pub fn live_cells(&self) -> (r: Vec<GridPosition>)
        requires
            self.wf(),
        ensures
            forall|p: GridPosition|
                r@.contains(p) <==> (p.1 < self.spec_rows() && p.0 < self.spec_cols()
                    && cell_at(self@, p.1 as int, p.0 as int)),
            forall|i: int, j: int| 0 <= i < j < r@.len() ==> row_major_lt(r@[i], r@[j]),
    {
        let rows: usize = self.rows;
        let cols: usize = self.cols;
        let mut r: Vec<GridPosition> = Vec::new();
        for row in 0..rows
            invariant
                self.wf(),
                rows == self.spec_rows(),
                cols == self.spec_cols(),
                forall|p: GridPosition|
                    r@.contains(p) <==> (p.1 < row && p.0 < cols
                        && cell_at(self@, p.1 as int, p.0 as int)),
                forall|i: int, j: int| 0 <= i < j < r@.len() ==> row_major_lt(r@[i], r@[j]),
        {
            proof {
                assert forall|i: int| 0 <= i < r@.len() implies row_major_lt(
                    #[trigger] r@[i],
                    GridPosition(0, row),
                ) by {
                    assert(r@.contains(r@[i]));
                }
            }
            for col in 0..cols
                invariant
                    self.wf(),
                    rows == self.spec_rows(),
                    cols == self.spec_cols(),
                    row < rows,
                    forall|p: GridPosition|
                        r@.contains(p) <==> ((p.1 < row && p.0 < cols
                            || p.1 == row && p.0 < col)
                            && cell_at(self@, p.1 as int, p.0 as int)),
                    forall|i: int, j: int| 0 <= i < j < r@.len() ==> row_major_lt(r@[i], r@[j]),
                    forall|i: int| 0 <= i < r@.len()
                        ==> row_major_lt(#[trigger] r@[i], GridPosition(col, row)),
            {
                proof {
                    assert(self.values@[row as int]@ == self@[row as int]);
                }
                if self.values[row][col] {
                    let p0 = GridPosition(col, row);
                    let ghost before = r@;
                    r.push(p0);
                    proof {
                        broadcast use vstd::seq_lib::lemma_seq_contains_after_push;

                        assert(r@ == before.push(p0));
                        assert forall|p: GridPosition| r@.contains(p) <==> (before.contains(p)
                            || p == p0) by {}
                    }
                }
            }
        }
        r
    }
}

/// Law: toggling one cell is an involution; flipping the same cell twice
/// returns the grid to its original state.
pub proof fn lemma_toggle_involution(g: Seq<Seq<bool>>, r: int, c: int)
    requires
        0 <= r < g.len(),
        0 <= c < g[r].len(),
    ensures
        toggled(toggled(g, r, c), r, c) == g,
{
    let g1 = toggled(g, r, c);
    assert(g1[r].update(c, !g1[r][c]) =~= g[r]);
    assert(toggled(g1, r, c) =~~= g);
}

/// Law: a 2x2 block of live cells, alone in the grid, is a still life; one
/// generation step leaves the grid unchanged.
pub proof fn lemma_block_still_life(g: Seq<Seq<bool>>, rows: int, cols: int, r: int, c: int)
    requires
        rect(g, rows, cols),
        0 <= r && r + 1 < rows,
        0 <= c && c + 1 < cols,
        forall|i: int, j: int|
            0 <= i < rows && 0 <= j < cols
                ==> ((#[trigger] g[i][j]) <==> (r <= i <= r + 1 && c <= j <= c + 1)),
    ensures
        step(g) == g,
{
    assert forall|i: int, j: int| 0 <= i < rows && 0 <= j < cols implies
        next_cell(g, i, j) == g[i][j] by {
        assert(live_neighbors(g, i, j) == live(g, i - 1, j - 1) + live(g, i - 1, j)
            + live(g, i - 1, j + 1) + live(g, i, j - 1) + live(g, i, j + 1)
            + live(g, i + 1, j - 1) + live(g, i + 1, j) + live(g, i + 1, j + 1));
    }
    assert(step(g) =~~= g);
}

/// Law: a horizontal 3-cell blinker, alone in the grid and away from the
/// border, oscillates with period 2: two generation steps return the grid to
/// its original configuration.
pub proof fn lemma_blinker_period_two(g: Seq<Seq<bool>>, rows: int, cols: int, r: int, c: int)
    requires
        rect(g, rows, cols),
        1 <= r && r + 1 < rows,
        1 <= c && c + 1 < cols,
        forall|i: int, j: int|
            0 <= i < rows && 0 <= j < cols
                ==> ((#[trigger] g[i][j]) <==> (i == r && c - 1 <= j <= c + 1)),
    ensures
        step(step(g)) == g,
{
    let g1 = step(g);
    assert(g1.len() == rows);
    assert forall|i: int, j: int| 0 <= i < rows && 0 <= j < cols implies
        ((#[trigger] g1[i][j]) <==> (j == c && r - 1 <= i <= r + 1)) by {
        assert(g1[i][j] == next_cell(g, i, j));
        assert(live_neighbors(g, i, j) == live(g, i - 1, j - 1) + live(g, i - 1, j)
            + live(g, i - 1, j + 1) + live(g, i, j - 1) + live(g, i, j + 1)
            + live(g, i + 1, j - 1) + live(g, i + 1, j) + live(g, i + 1, j + 1));
    }
    assert forall|i: int, j: int| 0 <= i < rows && 0 <= j < cols implies
        next_cell(g1, i, j) == g[i][j] by {
        assert(live_neighbors(g1, i, j) == live(g1, i - 1, j - 1) + live(g1, i - 1, j)
            + live(g1, i - 1, j + 1) + live(g1, i, j - 1) + live(g1, i, j + 1)
            + live(g1, i + 1, j - 1) + live(g1, i + 1, j) + live(g1, i + 1, j + 1));
    }
    assert(step(g1) =~~= g);
}

fn empty_matrix(rows: usize, cols: usize) -> (m: Vec<Vec<bool>>)
    ensures
        m@.len() == rows,
        forall|i: int| 0 <= i < rows ==> (#[trigger] m@[i])@.len() == cols,
        forall|i: int, j: int| 0 <= i < rows && 0 <= j < cols ==> !m@[i]@[j],
{
    let mut m: Vec<Vec<bool>> = Vec::new();
    while m.len() < rows
        invariant
            m@.len() <= rows,
            forall|i: int| 0 <= i < m@.len() ==> (#[trigger] m@[i])@.len() == cols,
            forall|i: int, j: int| 0 <= i < m@.len() && 0 <= j < cols ==> !m@[i]@[j],
        decreases rows - m@.len(),
    {
        m.push(vec![false; cols]);
    }
    m
}

} // verus!
