//! Laws of the game: turn alternation over any sequence of placements, the
//! no-overwrite rule, and independent addressability of the nine cells.

use vstd::prelude::*;
use crate::board::CELLS;
use crate::board::HEIGHT;
use crate::board::WIDTH;
use crate::board::cell_index;
use crate::game::GameView;
use crate::game::click_spec;
use crate::game::initial_game;
use crate::game::view_inv;
use crate::marker::Marker;

verus! {

/// A move addresses a cell of the grid.
pub open spec fn move_ok(mv: (int, int)) -> bool {
    &&& 0 <= mv.0 < WIDTH
    &&& 0 <= mv.1 < HEIGHT
}

/// The state after handing each move of `moves`, in order, to the
/// transition `click_spec`.
pub open spec fn apply_clicks(g: GameView, moves: Seq<(int, int)>) -> GameView
    decreases moves.len(),
{
    if moves.len() == 0 {
        g
    } else {
        apply_clicks(click_spec(g, moves[0].0, moves[0].1), moves.drop_first())
    }
}

/// Every move addresses a cell, no two moves address the same cell, and
/// every addressed cell is empty in `g` — so each placement succeeds.
pub open spec fn distinct_empty_moves(g: GameView, moves: Seq<(int, int)>) -> bool {
    &&& forall|k: int| 0 <= k < moves.len() ==> move_ok(#[trigger] moves[k])
    &&& forall|j: int, k: int|
            0 <= j < k < moves.len() ==> cell_index(#[trigger] moves[j].0, moves[j].1)
                != cell_index(#[trigger] moves[k].0, moves[k].1)
    &&& forall|k: int|
            0 <= k < moves.len() ==> g.board[cell_index(#[trigger] moves[k].0, moves[k].1)]
                is None
}

/// The marker that places the (n+1)-th mark when `first` places the first:
/// `first` after an even number of placements, the other marker after an
/// odd number.
pub open spec fn nth_marker(first: Marker, n: int) -> Marker {
    if n % 2 == 0 {
        first
    } else {
        first.spec_flip()
    }
}

/// A run of placements on distinct empty cells keeps the invariant,
/// advances the turn once per placement, and touches no cell outside the
/// moves.
pub proof fn lemma_clicks_frame(g: GameView, moves: Seq<(int, int)>)
    requires
        view_inv(g),
        distinct_empty_moves(g, moves),
    ensures
        view_inv(apply_clicks(g, moves)),
        apply_clicks(g, moves).next == nth_marker(g.next, moves.len() as int),
        forall|i: int|
            0 <= i < CELLS && (forall|k: int|
                0 <= k < moves.len() ==> cell_index(#[trigger] moves[k].0, moves[k].1) != i)
                ==> #[trigger] apply_clicks(g, moves).board[i] == g.board[i],
    decreases moves.len(),
{
    if moves.len() == 0 {
    } else {
        let m0 = moves[0];
        let i0 = cell_index(m0.0, m0.1);
        let g1 = click_spec(g, m0.0, m0.1);
        assert(g.board[i0] is None);
        assert(g1.board == g.board.update(i0, Some(g.next)));
        let rest = moves.drop_first();
        assert(forall|k: int| 0 <= k < rest.len() ==> rest[k] == moves[k + 1]);
        assert(distinct_empty_moves(g1, rest)) by {
            assert forall|k: int| 0 <= k < rest.len() implies g1.board[cell_index(
                #[trigger] rest[k].0,
                rest[k].1,
            )] is None by {
                assert(rest[k] == moves[k + 1]);
                assert(cell_index(moves[k + 1].0, moves[k + 1].1) != i0);
            }
        }
        lemma_clicks_frame(g1, rest);
        assert(apply_clicks(g, moves) == apply_clicks(g1, rest));
        assert(apply_clicks(g1, rest).next == nth_marker(g1.next, rest.len() as int));
        assert(nth_marker(g.next.spec_flip(), moves.len() as int - 1)
            == nth_marker(g.next, moves.len() as int));
        assert forall|i: int|
            0 <= i < CELLS && (forall|k: int|
                0 <= k < moves.len() ==> cell_index(#[trigger] moves[k].0, moves[k].1) != i)
                implies #[trigger] apply_clicks(g, moves).board[i] == g.board[i] by {
            assert(cell_index(moves[0].0, moves[0].1) != i);
            assert(forall|k: int|
                0 <= k < rest.len() ==> cell_index(#[trigger] rest[k].0, rest[k].1) != i);
            assert(g1.board[i] == g.board[i]);
        }
    }
}

/// Alternation: in a fresh game, for any run of placements on distinct
/// empty cells, the placement at zero-based position `i` finds its cell
/// empty (so it succeeds) and uses `First` when `i` is even and `Second`
/// when `i` is odd — that is, `First` marks the 1st, 3rd, 5th, ... mark.
pub proof fn lemma_alternation(moves: Seq<(int, int)>, i: int)
    requires
        distinct_empty_moves(initial_game(), moves),
        0 <= i < moves.len(),
    ensures
        apply_clicks(initial_game(), moves.take(i)).board[cell_index(moves[i].0, moves[i].1)]
            is None,
        apply_clicks(initial_game(), moves.take(i)).next == (if i % 2 == 0 {
            Marker::First
        } else {
            Marker::Second
        }),
{
    let g0 = initial_game();
    let pre = moves.take(i);
    assert(forall|k: int| 0 <= k < pre.len() ==> pre[k] == moves[k]);
    assert(distinct_empty_moves(g0, pre));
    lemma_clicks_frame(g0, pre);
    let ci = cell_index(moves[i].0, moves[i].1);
    assert(0 <= ci < CELLS);
    assert(forall|k: int| 0 <= k < pre.len() ==> cell_index(#[trigger] pre[k].0, pre[k].1) != ci);
    assert(apply_clicks(g0, pre).board[ci] == g0.board[ci]);
}

/// No-overwrite: an activation of an occupied cell changes nothing at all —
/// not the addressed cell, not any other cell, and not whose turn is next.
pub proof fn lemma_no_overwrite(g: GameView, col: int, row: int)
    requires
        move_ok((col, row)),
        g.board[cell_index(col, row)] is Some,
    ensures
        click_spec(g, col, row) == g,
{
}

/// The linear index is injective on the grid: every (col, row) pair
/// addresses a cell of its own.
pub proof fn lemma_index_injective(c1: int, r1: int, c2: int, r2: int)
    requires
        move_ok((c1, r1)),
        move_ok((c2, r2)),
    ensures
        cell_index(c1, r1) == cell_index(c2, r2) <==> (c1 == c2 && r1 == r2),
{
}

/// Independent addressability: an activation of an empty cell sets that
/// cell to the marker that was next, and never affects any other cell.
pub proof fn lemma_cell_isolation(g: GameView, col: int, row: int, c2: int, r2: int)
    requires
        view_inv(g),
        move_ok((col, row)),
        move_ok((c2, r2)),
        !(col == c2 && row == r2),
    ensures
        click_spec(g, col, row).board[cell_index(c2, r2)] == g.board[cell_index(c2, r2)],
        g.board[cell_index(col, row)] is None ==> click_spec(g, col, row).board[cell_index(
            col,
            row,
        )] == Some(g.next),
{
    lemma_index_injective(col, row, c2, r2);
}

} // verus!
