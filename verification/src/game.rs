//! The game controller: one board plus "whose turn is next", and the single
//! transition of the system — an activation of a cell either places the next
//! marker there and flips the turn, or, on an occupied cell, does nothing.

use vstd::prelude::*;
use crate::board::Board;
use crate::board::CELLS;
use crate::board::HEIGHT;
use crate::board::WIDTH;
use crate::board::cell_index;
use crate::marker::Marker;

verus! {

/// The abstract state of a game: the cells in row-major order and the
/// marker to be placed next.
#[verifier::ext_equal]
pub struct GameView {
    pub board: Seq<Option<Marker>>,
    pub next: Marker,
}

/// Invariant of the abstract state: the grid holds exactly `CELLS` cells.
pub open spec fn view_inv(g: GameView) -> bool {
    g.board.len() == CELLS
}

/// The state a fresh game holds: all cells empty, `First` to place.
pub open spec fn initial_game() -> GameView {
    GameView { board: Seq::new(CELLS as nat, |i: int| None), next: Marker::First }
}

/// The one transition of the system, on a "cell (col, row) was activated"
/// event: an empty cell receives the next marker and the turn flips; an
/// occupied cell leaves the state untouched. There is no terminal state.
pub open spec fn click_spec(g: GameView, col: int, row: int) -> GameView {
    let i = cell_index(col, row);
    if g.board[i] is None {
        GameView { board: g.board.update(i, Some(g.next)), next: g.next.spec_flip() }
    } else {
        g
    }
}

/// A game session: exclusively owned state, created fresh, mutated only
/// through `click`, and discarded when the session ends. No win, draw or
/// "board full" notion exists; activations are accepted indefinitely.
#[derive(Debug, Clone)]
pub struct TicTacToe {
    board: Board,
    next: Marker,
}

impl View for TicTacToe {
    type V = GameView;

    closed spec fn view(&self) -> GameView {
        GameView { board: self.board@, next: self.next }
    }
}

impl TicTacToe {
    /// Well-formed: the owned board is.
    pub closed spec fn wf(&self) -> bool {
        self.board.wf()
    }

    /// A fresh game: empty board, `First` to place.
    pub fn new() -> (g: TicTacToe)
        ensures
            g.wf(),
            g@ == initial_game(),
    {
        let g = TicTacToe { board: Board::new(), next: Marker::First };
        proof {
            assert(g@.board =~= initial_game().board);
            assert(g@ =~= initial_game());
        }
        g
    }

    /// Handles an activation of the cell at (col, row) and reports whether
    /// a marker was placed: the state steps exactly by `click_spec`.
    pub fn click(&mut self, col: usize, row: usize) -> (placed: bool)
        requires
            old(self).wf(),
            col < WIDTH,
            row < HEIGHT,
        ensures
            final(self).wf(),
            final(self)@ == click_spec(old(self)@, col as int, row as int),
            placed == (old(self)@.board[cell_index(col as int, row as int)] is None),
    {
        let marker = self.next;
        let placed = self.board.place(col, row, marker);
        if placed {
            self.next = self.next.flip();
        }
        proof {
            assert(self@ =~= click_spec(old(self)@, col as int, row as int));
        }
        placed
    }

    /// The current occupant of the addressed cell, or `None` for empty.
    pub fn get(&self, col: usize, row: usize) -> (r: Option<Marker>)
        requires
            self.wf(),
            col < WIDTH,
            row < HEIGHT,
        ensures
            r == self@.board[cell_index(col as int, row as int)],
    {
        self.board.get(col, row)
    }

    /// The marker a successful placement would put down next.
    pub fn next_marker(&self) -> (m: Marker)
        ensures
            m == self@.next,
    {
        self.next
    }

    /// The cells in row-major index order, as one vector.
    pub fn cells_in_order(&self) -> (v: Vec<Option<Marker>>)
        requires
            self.wf(),
        ensures
            v@ == self@.board,
    {
        self.board.cells_in_order()
    }

    /// The fixed display name of the game.
    pub fn title(&self) -> (t: &'static str)
        ensures
            t@ == "tic tac toe"@,
    {
        "tic tac toe"
    }
}

impl Default for TicTacToe {
    /// Same as `TicTacToe::new`: a fresh game.
    fn default() -> (g: Self)
        ensures
            g.wf(),
            g@ == initial_game(),
    {
        TicTacToe::new()
    }
}

} // verus!
