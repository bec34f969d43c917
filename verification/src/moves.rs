//! Making and taking back moves, and listing the legal ones.

use crate::board::{lowest_empty, topmost_piece, Board, BoardView};
use crate::grid::Cell;
use rand::seq::SliceRandom;
use vstd::prelude::*;

verus! {

/// What `lowest_empty` finds: an empty cell with only occupied cells
/// between it and row `from`.
pub proof fn lemma_lowest_empty(cells: Seq<Seq<Cell>>, col: int, from: int)
    requires
        -1 <= from,
    ensures
        -1 <= lowest_empty(cells, col, from) <= from,
        lowest_empty(cells, col, from) >= 0 ==> cells[lowest_empty(cells, col, from)][col]
            == Cell::Empty,
        forall|r: int|
            lowest_empty(cells, col, from) < r <= from ==> (#[trigger] cells[r][col])
                != Cell::Empty,
        from >= 0 && cells[0][col] == Cell::Empty ==> lowest_empty(cells, col, from) >= 0,
    decreases from + 1,
{
    if from >= 0 && cells[from][col] != Cell::Empty {
        lemma_lowest_empty(cells, col, from - 1);
    }
}

/// What `topmost_piece` finds: an occupied cell with only empty cells
/// between row `from` and it.
pub proof fn lemma_topmost_piece(cells: Seq<Seq<Cell>>, col: int, from: int, height: int)
    requires
        from <= height,
    ensures
        from <= topmost_piece(cells, col, from, height) <= height,
        topmost_piece(cells, col, from, height) < height ==> cells[topmost_piece(
            cells,
            col,
            from,
            height,
        )][col] != Cell::Empty,
        forall|r: int|
            from <= r < topmost_piece(cells, col, from, height) ==> (#[trigger] cells[r][col])
                == Cell::Empty,
    decreases height - from,
{
    if from < height && cells[from][col] == Cell::Empty {
        lemma_topmost_piece(cells, col, from + 1, height);
    }
}

/// A column whose cells above `row` are empty and whose cell at `row` is
/// occupied has its topmost piece at `row`.
pub proof fn lemma_topmost_is(cells: Seq<Seq<Cell>>, col: int, from: int, height: int, row: int)
    requires
        0 <= from <= row < height,
        cells[row][col] != Cell::Empty,
        forall|r: int| from <= r < row ==> (#[trigger] cells[r][col]) == Cell::Empty,
    ensures
        topmost_piece(cells, col, from, height) == row,
    decreases row - from,
{
    if from < row {
        lemma_topmost_is(cells, col, from + 1, height, row);
    }
}

/// A legal move lands inside the grid, on an empty cell that rests on the
/// floor or on a piece, with nothing above it.
pub proof fn lemma_landing(v: BoardView, col: int)
    requires
        v.wf(),
        v.column_open(col),
    ensures
        0 <= v.landing_row(col) < v.height,
        v.cells[v.landing_row(col)][col] == Cell::Empty,
        forall|r: int|
            v.landing_row(col) < r < v.height ==> (#[trigger] v.cells[r][col]) != Cell::Empty,
        forall|r: int| 0 <= r <= v.landing_row(col) ==> (#[trigger] v.cells[r][col]) == Cell::Empty,
{
    lemma_lowest_empty(v.cells, col, v.height - 1);
}

/// A legal move leaves a board that meets the invariant: in particular,
/// every column is still filled from the bottom without a gap.
pub proof fn lemma_apply_wf(v: BoardView, col: int, player: Seq<char>, reverse: bool)
    requires
        v.wf(),
        v.allows_move(col, player, reverse),
    ensures
        v.apply(col, player, reverse).wf(),
{
    lemma_landing(v, col);
}

/// Taking a piece back leaves a board that meets the invariant.
pub proof fn lemma_undo_wf(v: BoardView, col: int)
    requires
        v.wf(),
        v.undo_fits(col),
    ensures
        v.undo(col).wf(),
{
    if v.has_piece(col) {
        lemma_topmost_piece(v.cells, col, 0, v.height);
    }
}

/// The ascending list of legal columns holds each legal column below
/// `bound` once and nothing else.
pub proof fn lemma_legal_columns(v: BoardView, player: Seq<char>, reverse: bool, bound: int)
    requires
        bound <= i64::MAX,
    ensures
        v.legal_columns(player, reverse, bound).no_duplicates(),
        forall|c: i64|
            #![trigger v.legal_columns(player, reverse, bound).contains(c)]
            #![trigger v.allows_move(c as int, player, reverse)]
            v.legal_columns(player, reverse, bound).contains(c) <==> (0 <= c < bound
                && v.allows_move(c as int, player, reverse)),
    decreases bound,
{
    if bound > 0 {
        lemma_legal_columns(v, player, reverse, bound - 1);
        let rest = v.legal_columns(player, reverse, bound - 1);
        let all = v.legal_columns(player, reverse, bound);
        let last = (bound - 1) as i64;
        if v.allows_move(bound - 1, player, reverse) {
            assert(all[rest.len() as int] == last);
            assert forall|c: i64| all.contains(c) implies (0 <= c < bound && v.allows_move(
                c as int,
                player,
                reverse,
            )) by {
                let i = choose|i: int| 0 <= i < all.len() && all[i] == c;
                if i < rest.len() {
                    assert(rest.contains(c));
                }
            }
            assert forall|c: i64|
                0 <= c < bound && v.allows_move(c as int, player, reverse) implies all.contains(
                c,
            ) by {
                if c < bound - 1 {
                    let i = choose|i: int| 0 <= i < rest.len() && rest[i] == c;
                    assert(all[i] == c);
                }
            }
        }
    }
}

/// Reorders `cols` at random with `SliceRandom::shuffle` of the crate
/// `rand`, driven by the thread's generator. The call only swaps elements
/// of the slice, so afterwards the list holds the same columns, each as
/// often as before; their order is not known.
#[verifier::external_body]
fn shuffle_columns(cols: &mut Vec<i64>)
    ensures
        final(cols)@.to_multiset() == old(cols)@.to_multiset(),
{
    cols.shuffle(&mut rand::thread_rng());
}

impl Board {
    /// The legal columns for `player` with the chosen symbol, in ascending
    /// order.
    pub fn legal_moves(&self, reverse: &bool, player: &String) -> (cols: Vec<i64>)
        requires
            self.wf(),
        ensures
            cols@ == self@.legal_columns(player@, *reverse, self@.width),
    {
        let mut cols: Vec<i64> = Vec::new();
        let mut col: i64 = 0;
        while col < self.grid.width
            invariant
                self.wf(),
                0 <= col <= self.grid.width,
                cols@ == self@.legal_columns(player@, *reverse, col as int),
            decreases self.grid.width - col,
        {
            if self.allows_move(&col, player, reverse) {
                cols.push(col);
            }
            col = col + 1;
        }
        cols
    }

    /// The legal columns for `player` with the chosen symbol, each once, in
    /// a random order.
    pub fn available_moves(&self, reverse: &bool, player: &String) -> (cols: Vec<i64>)
        requires
            self.wf(),
        ensures
            cols@.no_duplicates(),
            forall|c: i64|
                #![trigger cols@.contains(c)]
                #![trigger self@.allows_move(c as int, player@, *reverse)]
                cols@.contains(c) <==> self@.allows_move(c as int, player@, *reverse),
            cols@.to_multiset() == self@.legal_columns(
                player@,
                *reverse,
                self@.width,
            ).to_multiset(),
    {
        let mut cols = self.legal_moves(reverse, player);
        let ghost sorted = cols@;
        shuffle_columns(&mut cols);
        proof {
            lemma_legal_columns(self@, player@, *reverse, self@.width);
            sorted.lemma_multiset_has_no_duplicates();
            cols@.lemma_multiset_has_no_duplicates_conv();
            assert forall|c: i64| cols@.contains(c) <==> self@.allows_move(
                c as int,
                player@,
                *reverse,
            ) by {
                vstd::seq_lib::to_multiset_contains(cols@, c);
                vstd::seq_lib::to_multiset_contains(sorted, c);
            }
        }
        cols
    }

    /// Whether `player` has a legal move with the chosen symbol.
    pub fn has_move(&self, reverse: &bool, player: &String) -> (ok: bool)
        requires
            self.wf(),
        ensures
            ok == self@.can_move(player@, *reverse),
    {
        let cols = self.legal_moves(reverse, player);
        proof {
            lemma_legal_columns(self@, player@, *reverse, self@.width);
            if cols@.len() > 0 {
                assert(cols@.contains(cols@[0]));
            }
        }
        cols.len() > 0
    }

    /// Whether the game is stuck: neither player can move, with either
    /// symbol.
    pub fn is_draw(&self) -> (r: bool)
        requires
            self.wf(),
        ensures
            r == self@.is_draw(),
    {
        !self.has_move(&false, &self.player_1) && !self.has_move(&true, &self.player_1)
            && !self.has_move(&false, &self.player_2) && !self.has_move(&true, &self.player_2)
    }

    /// Drops the symbol chosen by `reverse` for player `ox` into column
    /// `col`: the piece comes to rest in the lowest empty cell, the move is
    /// recorded as the last one and, where pieces are scarce, the player
    /// has one piece less of that symbol.
    pub fn perform_move(&mut self, col: i64, ox: String, reverse: &bool)
        requires
            old(self).wf(),
            old(self)@.allows_move(col as int, ox@, *reverse),
        ensures
            final(self).wf(),
            final(self)@ == old(self)@.apply(col as int, ox@, *reverse),
    {
        let first = ox == self.player_1;
        let own = if first {
            Cell::T
        } else {
            Cell::O
        };
        let chess = if *reverse {
            own.flip()
        } else {
            own
        };
        proof {
            lemma_landing(self@, col as int);
            lemma_apply_wf(self@, col as int, ox@, *reverse);
        }
        let mut row: i64 = self.grid.height - 1;
        loop
            invariant
                self.wf(),
                *self == *old(self),
                0 <= col < self.grid.width,
                -1 <= row < self.grid.height,
                lowest_empty(self@.cells, col as int, row as int) == self@.landing_row(col as int),
            ensures
                row == self@.landing_row(col as int),
            decreases row + 1,
        {
            if row < 0 {
                break ;
            }
            if self.cell(row, col) == Cell::Empty {
                break ;
            }
            row = row - 1;
        }
        self.grid.set(row, col, chess);
        self.last_row = row;
        self.last_col = col;
        self.last_player = ox;
        if self.p1_remain.len() == 2 {
            let k: usize = if *reverse {
                1
            } else {
                0
            };
            if first {
                let left: i64 = self.p1_remain[k];
                self.p1_remain[k] = left - 1;
            } else {
                let left: i64 = self.p2_remain[k];
                self.p2_remain[k] = left - 1;
            }
        }
    }

    /// Takes back the top piece of column `col` and, where pieces are
    /// scarce, gives it back to the player recorded as the last mover. The
    /// record of the last move is left as it is. A column that does not
    /// exist or holds no piece leaves the board unchanged.
    pub fn undo_move(&mut self, col: i64)
        requires
            old(self).wf(),
            old(self)@.undo_fits(col as int),
        ensures
            final(self).wf(),
            final(self)@ == old(self)@.undo(col as int),
    {
        if col < 0 || col >= self.grid.width {
            return ;
        }
        proof {
            lemma_topmost_piece(self@.cells, col as int, 0, self@.height);
            lemma_undo_wf(self@, col as int);
        }
        let mut row: i64 = 0;
        let mut found = Cell::Empty;
        loop
            invariant
                self.wf(),
                *self == *old(self),
                0 <= col < self.grid.width,
                0 <= row <= self.grid.height,
                topmost_piece(self@.cells, col as int, row as int, self@.height) == topmost_piece(
                    self@.cells,
                    col as int,
                    0,
                    self@.height,
                ),
            ensures
                row == topmost_piece(self@.cells, col as int, 0, self@.height),
                row < self.grid.height ==> found == self@.cells[row as int][col as int],
            decreases self.grid.height - row,
        {
            if row >= self.grid.height {
                break ;
            }
            found = self.cell(row, col);
            if found != Cell::Empty {
                break ;
            }
            row = row + 1;
        }
        if row >= self.grid.height {
            return ;
        }
        let first = self.last_player == self.player_1;
        let own = if first {
            Cell::T
        } else {
            Cell::O
        };
        let reverse = found != own;
        self.grid.set(row, col, Cell::Empty);
        if self.p1_remain.len() == 2 {
            let k: usize = if reverse {
                1
            } else {
                0
            };
            if first {
                let left: i64 = self.p1_remain[k];
                self.p1_remain[k] = left + 1;
            } else {
                let left: i64 = self.p2_remain[k];
                self.p2_remain[k] = left + 1;
            }
        }
    }
}

/// Taking back a legal move right after it was made restores the cells and
/// both inventories. Only the record of the last move still shows the move.
pub proof fn lemma_apply_then_undo(v: BoardView, col: int, player: Seq<char>, reverse: bool)
    requires
        v.wf(),
        v.allows_move(col, player, reverse),
    ensures
        v.apply(col, player, reverse).undo_fits(col),
        v.apply(col, player, reverse).undo(col) == (BoardView {
            last_row: v.landing_row(col),
            last_col: col,
            last_player: player,
            ..v
        }),
{
    lemma_landing(v, col);
    let w = v.apply(col, player, reverse);
    let row = v.landing_row(col);
    lemma_topmost_is(w.cells, col, 0, w.height, row);
    let u = w.undo(col);
    assert(u.cells[row] =~= v.cells[row]);
    assert(u.cells =~= v.cells);
    assert(u.p1_remain =~= v.p1_remain);
    assert(u.p2_remain =~= v.p2_remain);
}

} // verus!
