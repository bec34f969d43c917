//! What holds of every game: pieces never float, the configuration
//! stays, a move taken back leaves no trace on the cells or the
//! inventories, and a game with unlimited pieces is drawn exactly when the
//! board is full. The laws of win detection stand with it in `winner`,
//! the law of the terminal score with the search in `search`.

use crate::board::{settled, BoardView};
use crate::grid::Cell;
use crate::moves::{lemma_apply_then_undo, lemma_apply_wf};
use vstd::prelude::*;

verus! {

/// One move: who drops which symbol into which column.
pub struct Move {
    pub col: int,
    pub player: Seq<char>,
    pub reverse: bool,
}

/// Whether each move of `moves` is legal on the board that the moves
/// before it have left.
pub open spec fn all_legal(v: BoardView, moves: Seq<Move>) -> bool
    decreases moves.len(),
{
    if moves.len() == 0 {
        true
    } else {
        let first = moves[0];
        v.allows_move(first.col, first.player, first.reverse) && all_legal(
            v.apply(first.col, first.player, first.reverse),
            moves.drop_first(),
        )
    }
}

/// The board after all of `moves` have been made in turn.
pub open spec fn played(v: BoardView, moves: Seq<Move>) -> BoardView
    decreases moves.len(),
{
    if moves.len() == 0 {
        v
    } else {
        let first = moves[0];
        played(v.apply(first.col, first.player, first.reverse), moves.drop_first())
    }
}

/// Gravity: after any sequence of legal moves every column is filled from
/// the bottom without a gap, and the board still meets its invariant.
pub proof fn law_gravity(v: BoardView, moves: Seq<Move>)
    requires
        v.wf(),
        all_legal(v, moves),
    ensures
        played(v, moves).wf(),
        settled(played(v, moves).cells, v.width, v.height),
        played(v, moves).width == v.width,
        played(v, moves).height == v.height,
    decreases moves.len(),
{
    if moves.len() > 0 {
        let first = moves[0];
        lemma_apply_wf(v, first.col, first.player, first.reverse);
        law_gravity(v.apply(first.col, first.player, first.reverse), moves.drop_first());
    }
}

/// A game keeps its configuration: no sequence of moves changes the
/// dimensions, the players, the winning pattern or the look-ahead.
pub proof fn law_configuration_stays(v: BoardView, moves: Seq<Move>)
    ensures
        played(v, moves).width == v.width,
        played(v, moves).height == v.height,
        played(v, moves).player_1 == v.player_1,
        played(v, moves).player_2 == v.player_2,
        played(v, moves).mode == v.mode,
        played(v, moves).difficulty == v.difficulty,
    decreases moves.len(),
{
    if moves.len() > 0 {
        let first = moves[0];
        law_configuration_stays(
            v.apply(first.col, first.player, first.reverse),
            moves.drop_first(),
        );
    }
}

/// Undo is the inverse of a move: a legal move taken back at once leaves
/// the cells and both inventories as they were before the move. The record
/// of the last move is not restored: it still names the move.
pub proof fn law_undo_restores(v: BoardView, col: int, player: Seq<char>, reverse: bool)
    requires
        v.wf(),
        v.allows_move(col, player, reverse),
    ensures
        v.apply(col, player, reverse).undo_fits(col),
        v.apply(col, player, reverse).undo(col).cells == v.cells,
        v.apply(col, player, reverse).undo(col).p1_remain == v.p1_remain,
        v.apply(col, player, reverse).undo(col).p2_remain == v.p2_remain,
        v.apply(col, player, reverse).undo(col).last_row == v.landing_row(col),
        v.apply(col, player, reverse).undo(col).last_col == col,
        v.apply(col, player, reverse).undo(col).last_player == player,
{
    lemma_apply_then_undo(v, col, player, reverse);
}

/// Where pieces are unlimited, the game is drawn exactly when no column
/// is open.
pub proof fn law_draw_without_inventory(v: BoardView)
    requires
        !v.scarce(),
    ensures
        v.is_draw() <==> (forall|col: int| !v.column_open(col)),
{
    if v.is_draw() {
        assert forall|col: int| !v.column_open(col) by {
            assert(!v.allows_move(col, v.player_1, false));
        }
    }
}

/// Where the last piece lies on top of its column, a line of symbols can
/// stand in that column only from the last piece downward: every window of
/// the column that starts above it holds an empty cell.
pub proof fn law_column_reads_down(v: BoardView, line: Seq<Cell>, k: int)
    requires
        v.wf(),
        forall|r: int| 0 <= r < v.last_row ==> (#[trigger] v.cells[r][v.last_col]) == Cell::Empty,
        line.len() == 4,
        forall|i: int| 0 <= i < 4 ==> line[i] != Cell::Empty,
        1 <= k < 4,
    ensures
        v.window(1, 0, k) != line,
{
    let w = v.window(1, 0, k);
    assert(w[k - 1] == v.cell(v.last_row - 1, v.last_col));
}

} // verus!
