//! The board: a fixed 3x3 grid of cells, each empty or occupied by a
//! marker, addressed by zero-based (column, row) pairs in row-major order.

use vstd::prelude::*;
use crate::marker::Marker;

verus! {

/// Width of the grid in cells.
pub const WIDTH: usize = 3;

/// Height of the grid in cells.
pub const HEIGHT: usize = 3;

/// Total number of cells.
pub const CELLS: usize = 9;

/// The linear index of the cell at (col, row): row-major, so rows are laid
/// out top to bottom and columns left to right within a row.
pub open spec fn cell_index(col: int, row: int) -> int {
    col + row * (WIDTH as int)
}

/// Maps a (column, row) pair to its linear index.
pub fn to_index(index: (usize, usize)) -> (i: usize)
    requires
        index.0 < WIDTH,
        index.1 < HEIGHT,
    ensures
        i == cell_index(index.0 as int, index.1 as int),
        i < CELLS,
{
    index.0 + index.1 * WIDTH
}

/// A 3x3 grid of cells. Pure storage plus an access protocol: once a cell
/// is set, its occupant never changes for the lifetime of the board, and
/// no operation clears a cell or resets the grid in place.
#[derive(Debug, Clone)]
pub struct Board {
    cells: Vec<Option<Marker>>,
}

impl View for Board {
    type V = Seq<Option<Marker>>;

    /// The cells in row-major order.
    closed spec fn view(&self) -> Seq<Option<Marker>> {
        self.cells@
    }
}

impl Board {
    /// Well-formed: the grid holds exactly `CELLS` cells.
    pub open spec fn wf(&self) -> bool {
        self@.len() == CELLS
    }

    /// A fresh board: all cells empty.
    pub fn new() -> (b: Board)
        ensures
            b.wf(),
            forall|i: int| 0 <= i < CELLS ==> b@[i] is None,
    {
        let mut cells: Vec<Option<Marker>> = Vec::new();
        let mut k: usize = 0;
        while k < CELLS
            invariant
                k <= CELLS,
                cells@.len() == k,
                forall|i: int| 0 <= i < k ==> cells@[i] is None,
            decreases CELLS - k,
        {
            cells.push(None);
            k = k + 1;
        }
        Board { cells }
    }

    /// The current occupant of the addressed cell, or `None` for empty.
    pub fn get(&self, col: usize, row: usize) -> (r: Option<Marker>)
        requires
            self.wf(),
            col < WIDTH,
            row < HEIGHT,
        ensures
            r == self@[cell_index(col as int, row as int)],
    {
        let i = to_index((col, row));
        self.cells[i]
    }

    /// If the addressed cell is empty, sets it to `marker` and reports
    /// success; if it is already occupied the call is a no-op and reports
    /// failure. It never overwrites and never touches any other cell.
    pub fn place(&mut self, col: usize, row: usize, marker: Marker) -> (placed: bool)
        requires
            old(self).wf(),
            col < WIDTH,
            row < HEIGHT,
        ensures
            final(self).wf(),
            placed == (old(self)@[cell_index(col as int, row as int)] is None),
            placed ==> final(self)@
                == old(self)@.update(cell_index(col as int, row as int), Some(marker)),
            !placed ==> final(self)@ == old(self)@,
    {
        let i = to_index((col, row));
        if self.cells[i].is_none() {
            self.cells[i] = Some(marker);
            true
        } else {
            false
        }
    }

    /// The cells in row-major index order, as one vector: index
    /// `cell_index(col, row)` holds the occupant of (col, row).
    pub fn cells_in_order(&self) -> (v: Vec<Option<Marker>>)
        requires
            self.wf(),
        ensures
            v@ == self@,
    {
        let mut v: Vec<Option<Marker>> = Vec::new();
        let mut k: usize = 0;
        while k < CELLS
            invariant
                self.wf(),
                k <= CELLS,
                v@.len() == k,
                forall|i: int| 0 <= i < k ==> v@[i] == self@[i],
            decreases CELLS - k,
        {
            v.push(self.cells[k]);
            k = k + 1;
        }
        proof {
            assert(v@ =~= self@);
        }
        v
    }
}

impl Default for Board {
    /// Same as `Board::new`: a fresh board with all cells empty.
    fn default() -> (b: Self)
        ensures
            b.wf(),
            forall|i: int| 0 <= i < CELLS ==> b@[i] is None,
    {
        Board::new()
    }
}

} // verus!
