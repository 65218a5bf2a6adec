//! The raster's cells and the order in which they are visited.
//!
//! A grid of `width` columns and `height` rows is walked row by row, each row
//! from its first column to its last. The position of a cell in that walk is
//! its rank.

use vstd::arithmetic::div_mod::lemma_fundamental_div_mod;
use vstd::arithmetic::div_mod::lemma_fundamental_div_mod_converse;
use vstd::prelude::*;

verus! {

/// The numbers of columns and rows of a raster.
#[derive(Clone, Copy, Debug, PartialEq, Eq, Structural)]
pub struct Grid {
    pub width: usize,
    pub height: usize,
}

/// One cell of a raster, by its column and its row.
#[derive(Clone, Copy, Debug, PartialEq, Eq, Structural)]
pub struct Cell {
    pub column: usize,
    pub row: usize,
}

impl Grid {
    /// The number of cells.
    pub open spec fn cell_count(self) -> int {
        self.width * self.height
    }

    /// The cell belongs to the grid.
    pub open spec fn has(self, cell: Cell) -> bool {
        cell.column < self.width && cell.row < self.height
    }

    /// The number of cells that are visited before `cell`.
    pub open spec fn rank(self, cell: Cell) -> int {
        cell.row * self.width + cell.column
    }

    /// The cell that is visited after `rank` others.
    pub open spec fn cell_at(self, rank: int) -> Cell {
        Cell { column: (rank % self.width as int) as usize, row: (rank / self.width as int) as usize }
    }

    /// The cells in the order of the walk.
    pub open spec fn walk(self) -> Seq<Cell> {
        Seq::new(self.cell_count() as nat, |rank: int| self.cell_at(rank))
    }

    /// The number of cells, where a `usize` can hold it.
    pub fn count(&self) -> (r: Option<usize>)
        ensures
            r == (if self.cell_count() <= usize::MAX {
                Some(self.cell_count() as usize)
            } else {
                None
            }),
    {
        self.width.checked_mul(self.height)
    }

    /// Starts a walk over the grid.
    pub fn scan(&self) -> (scan: Scan)
        ensures
            scan.grid() == *self,
            scan.emitted() == 0,
    {
        Scan::new(*self)
    }

    /// All cells in the order of the walk.
    pub fn cells(&self) -> (cells: Vec<Cell>)
        ensures
            cells@ == self.walk(),
    {
        let mut scan = self.scan();
        let mut cells: Vec<Cell> = Vec::new();
        assert(self.cell_count() >= 0) by (nonlinear_arith)
            requires
                self.cell_count() == self.width * self.height,
        ;
        loop
            invariant_except_break
                scan.grid() == *self,
                cells@.len() == scan.emitted(),
                0 <= scan.emitted() <= self.cell_count(),
                forall|k: int| 0 <= k < cells@.len() ==> cells@[k] == self.walk()[k],
            ensures
                cells@ == self.walk(),
            decreases self.cell_count() - scan.emitted(),
        {
            match scan.next() {
                Some(cell) => {
                    cells.push(cell);
                },
                None => {
                    assert(cells@ =~= self.walk());
                    break ;
                },
            }
        }
        cells
    }
}

/// A walk over a grid that hands out one cell at a time.
pub struct Scan {
    grid: Grid,
    column: usize,
    row: usize,
}

impl Scan {
    #[verifier::type_invariant]
    spec fn well_formed(self) -> bool {
        &&& self.row <= self.grid.height
        &&& self.row < self.grid.height ==> self.column < self.grid.width
        &&& self.row == self.grid.height ==> self.column == 0
        &&& self.grid.width == 0 ==> self.row == self.grid.height
    }

    /// The grid that is walked.
    pub closed spec fn grid(self) -> Grid {
        self.grid
    }

    /// The number of cells handed out so far.
    pub closed spec fn emitted(self) -> int {
        self.row * self.grid.width + self.column
    }

    /// A walk that has handed out nothing yet.
    pub fn new(grid: Grid) -> (scan: Scan)
        ensures
            scan.grid() == grid,
            scan.emitted() == 0,
    {
        let row: usize = if grid.width == 0 {
            grid.height
        } else {
            0
        };
        assert(row * grid.width == 0) by (nonlinear_arith)
            requires
                row == 0 || grid.width == 0,
        ;
        Scan { grid, column: 0, row }
    }

    /// Hands out the next cell of the walk, or `None` once every cell has
    /// been handed out.
    pub fn next(&mut self) -> (r: Option<Cell>)
        ensures
            final(self).grid() == old(self).grid(),
            0 <= old(self).emitted() <= old(self).grid().cell_count(),
            old(self).emitted() < old(self).grid().cell_count() ==> r == Some(
                old(self).grid().walk()[old(self).emitted()],
            ) && final(self).emitted() == old(self).emitted() + 1,
            old(self).emitted() == old(self).grid().cell_count() ==> r is None
                && final(self).emitted() == old(self).emitted(),
    {
        proof {
            use_type_invariant(&*self);
        }
        let grid = self.grid;
        let column = self.column;
        let row = self.row;
        let ghost before = row * grid.width + column;
        if row == grid.height {
            assert(before == grid.cell_count()) by (nonlinear_arith)
                requires
                    before == row * grid.width + column,
                    column == 0,
                    row == grid.height,
                    grid.cell_count() == grid.width * grid.height,
            ;
            return None;
        }
        proof {
            lemma_fundamental_div_mod_converse(before, grid.width as int, row as int, column as int);
            assert(before + 1 <= grid.cell_count() && before >= 0 && (row + 1) * grid.width
                == row * grid.width + grid.width) by (nonlinear_arith)
                requires
                    before == row * grid.width + column,
                    column < grid.width,
                    row < grid.height,
                    grid.cell_count() == grid.width * grid.height,
            ;
        }
        if column + 1 == grid.width {
            *self = Scan { grid, column: 0, row: row + 1 };
        } else {
            *self = Scan { grid, column: column + 1, row };
        }
        Some(Cell { column, row })
    }
}

/// The rank of the cell at a position of the walk is that position: the walk
/// visits no cell twice.
pub proof fn lemma_rank_of_cell_at(grid: Grid, rank: int)
    requires
        0 <= rank < grid.cell_count(),
    ensures
        grid.has(grid.cell_at(rank)),
        grid.rank(grid.cell_at(rank)) == rank,
{
    let w = grid.width as int;
    let h = grid.height as int;
    assert(w > 0) by (nonlinear_arith)
        requires
            0 <= rank < w * h,
            w >= 0,
    ;
    lemma_fundamental_div_mod(rank, w);
    let q = rank / w;
    let r = rank % w;
    assert(0 <= r < w);
    assert(0 <= q < h) by (nonlinear_arith)
        requires
            rank == w * q + r,
            0 <= r < w,
            0 <= rank < w * h,
    ;
    assert(q * w == w * q) by (nonlinear_arith);
}

/// The cell at the rank of a cell is that cell: the walk visits every cell of
/// the grid.
pub proof fn lemma_cell_at_rank(grid: Grid, cell: Cell)
    requires
        grid.has(cell),
    ensures
        0 <= grid.rank(cell) < grid.cell_count(),
        grid.cell_at(grid.rank(cell)) == cell,
        grid.walk()[grid.rank(cell)] == cell,
{
    let w = grid.width as int;
    let h = grid.height as int;
    let k = grid.rank(cell);
    lemma_fundamental_div_mod_converse(k, w, cell.row as int, cell.column as int);
    assert(0 <= k < w * h) by (nonlinear_arith)
        requires
            k == cell.row * w + cell.column,
            0 <= cell.column < w,
            0 <= cell.row < h,
    ;
}

/// The walk is row-major: a cell comes before another exactly when its row is
/// lower, or the rows are the same and its column is lower.
pub proof fn lemma_walk_is_row_major(grid: Grid, a: Cell, b: Cell)
    requires
        grid.has(a),
        grid.has(b),
    ensures
        grid.rank(a) < grid.rank(b) <==> (a.row < b.row || (a.row == b.row && a.column
            < b.column)),
{
    let w = grid.width as int;
    if a.row < b.row {
        assert(a.row * w + w <= b.row * w) by (nonlinear_arith)
            requires
                a.row < b.row,
                w >= 0,
        ;
    } else if b.row < a.row {
        assert(b.row * w + w <= a.row * w) by (nonlinear_arith)
            requires
                b.row < a.row,
                w >= 0,
        ;
    }
}

/// The walk of a grid is one fixed sequence: each of its cells occurs in it
/// exactly once, at its rank.
pub proof fn lemma_walk_visits_each_cell_once(grid: Grid)
    ensures
        grid.walk().len() == grid.cell_count(),
        forall|k: int| 0 <= k < grid.walk().len() ==> grid.has(#[trigger] grid.walk()[k]),
        forall|cell: Cell| grid.has(cell) ==> #[trigger] grid.walk().contains(cell),
        grid.walk().no_duplicates(),
{
    assert(grid.cell_count() >= 0) by (nonlinear_arith)
        requires
            grid.cell_count() == grid.width * grid.height,
    ;
    let walk = grid.walk();
    assert forall|k: int| 0 <= k < walk.len() implies grid.has(#[trigger] walk[k]) by {
        lemma_rank_of_cell_at(grid, k);
    }
    assert forall|cell: Cell| grid.has(cell) implies #[trigger] walk.contains(cell) by {
        lemma_cell_at_rank(grid, cell);
    }
    assert forall|i: int, j: int| 0 <= i < walk.len() && 0 <= j < walk.len() && i != j implies walk[i]
        != walk[j] by {
        lemma_rank_of_cell_at(grid, i);
        lemma_rank_of_cell_at(grid, j);
    }
}

} // verus!
