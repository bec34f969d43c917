//! Win detection: whether the last move completed a line of four that
//! spells the winning pattern, for the mover or for the other player.

use crate::board::{Board, BoardView};
use crate::grid::{in_bounds, Cell};
use vstd::prelude::*;

verus! {

impl BoardView {
    /// Whether a move has been recorded.
    pub open spec fn moved(self) -> bool {
        !(self.last_row == -1 && self.last_col == -1)
    }

    /// The four symbols with which the last mover wins.
    pub open spec fn mover_line(self) -> Seq<Cell> {
        Seq::new(4, |i: int| self.symbol(self.last_player, self.mode[i]))
    }

    /// The four symbols with which the other player wins: the mover's line
    /// with every symbol exchanged.
    pub open spec fn enemy_line(self) -> Seq<Cell> {
        Seq::new(4, |i: int| self.symbol(self.last_player, !self.mode[i]))
    }

    /// The four cells in direction (`dr`, `dc`) of which cell number `k` is
    /// the last move. Cells outside the grid count as empty.
    pub open spec fn window(self, dr: int, dc: int, k: int) -> Seq<Cell> {
        Seq::new(
            4,
            |i: int| self.cell(self.last_row + (i - k) * dr, self.last_col + (i - k) * dc),
        )
    }

    /// Whether one of the four windows through the last move in direction
    /// (`dr`, `dc`) spells `line`.
    pub open spec fn spells_along(self, dr: int, dc: int, line: Seq<Cell>) -> bool {
        ||| self.window(dr, dc, 0) == line
        ||| self.window(dr, dc, 1) == line
        ||| self.window(dr, dc, 2) == line
        ||| self.window(dr, dc, 3) == line
    }

    /// Whether a window through the last move spells `line`: left to
    /// right, top to bottom, or top to bottom along either diagonal.
    pub open spec fn completes(self, line: Seq<Cell>) -> bool {
        ||| self.spells_along(0, 1, line)
        ||| self.spells_along(1, 0, line)
        ||| self.spells_along(1, 1, line)
        ||| self.spells_along(1, -1, line)
    }

    /// The last move completed the mover's line.
    pub open spec fn mover_wins(self) -> bool {
        self.moved() && self.completes(self.mover_line())
    }

    /// The last move completed the other player's line.
    pub open spec fn enemy_wins(self) -> bool {
        self.moved() && self.completes(self.enemy_line())
    }

    /// Whether the last move decided the game.
    pub open spec fn has_winner(self) -> bool {
        self.mover_wins() || self.enemy_wins()
    }

    /// Who won: the mover where the mover's line stands, else the other
    /// player where that player's line stands, else nobody (the empty name).
    pub open spec fn winner(self) -> Seq<char> {
        if self.mover_wins() {
            self.last_player
        } else if self.enemy_wins() {
            self.next_player()
        } else {
            Seq::empty()
        }
    }

    /// Whether the game is over.
    pub open spec fn is_terminal(self) -> bool {
        self.has_winner() || self.is_draw()
    }

    /// 1 where the first player has won, -1 where anyone else has, 0 for a
    /// draw and 2 while the game goes on.
    pub open spec fn game_value(self) -> int {
        if self.has_winner() {
            if self.winner() == self.player_1 {
                1
            } else {
                -1
            }
        } else if self.is_draw() {
            0
        } else {
            2
        }
    }
}

/// `base` moved by `steps` cells in direction `d`.
fn shifted(base: i64, steps: i64, d: i64) -> (r: i128)
    requires
        -1 <= d <= 1,
        -3 <= steps <= 3,
    ensures
        r == base + steps * d,
{
    assert(d == -1 ==> steps * d == -steps) by (nonlinear_arith);
    if d == 0 {
        base as i128
    } else if d == 1 {
        base as i128 + steps as i128
    } else {
        base as i128 - steps as i128
    }
}

impl Board {
    /// The symbol the pattern asks of mover `ox` at a position marked
    /// `bit`: the own symbol for `false`, the other one for `true`.
    pub fn pattern(&self, ox: &String, bit: &bool) -> (c: Cell)
        ensures
            c == self@.symbol(ox@, *bit),
    {
        let own = if *ox == self.player_1 {
            Cell::T
        } else {
            Cell::O
        };
        if *bit {
            own.flip()
        } else {
            own
        }
    }

    /// The symbol with which the player facing `ox` would fill a position
    /// marked `bit`.
    pub fn pattern_enemy(&self, ox: &String, bit: &bool) -> (c: Cell)
        ensures
            c == self@.symbol(ox@, !*bit),
    {
        let other = !*bit;
        self.pattern(ox, &other)
    }

    /// The cell `steps` cells from the last move in direction (`dr`, `dc`).
    fn cell_from_last(&self, dr: i64, dc: i64, steps: i64) -> (c: Cell)
        requires
            self.wf(),
            -1 <= dr <= 1,
            -1 <= dc <= 1,
            -3 <= steps <= 3,
        ensures
            c == self@.cell(self@.last_row + steps * dr, self@.last_col + steps * dc),
    {
        let row = shifted(self.last_row, steps, dr);
        let col = shifted(self.last_col, steps, dc);
        if row < 0 || row >= self.grid.height as i128 || col < 0 || col >= self.grid.width as i128 {
            Cell::Empty
        } else {
            self.cell(row as i64, col as i64)
        }
    }

    /// Whether the window in direction (`dr`, `dc`) whose cell number `k`
    /// is the last move spells `line`.
    fn window_spells(&self, dr: i64, dc: i64, k: i64, line: &Vec<Cell>) -> (r: bool)
        requires
            self.wf(),
            -1 <= dr <= 1,
            -1 <= dc <= 1,
            0 <= k < 4,
            line@.len() == 4,
        ensures
            r == (self@.window(dr as int, dc as int, k as int) == line@),
    {
        let ghost w = self@.window(dr as int, dc as int, k as int);
        let mut ok = true;
        let mut i: i64 = 0;
        while i < 4
            invariant
                self.wf(),
                -1 <= dr <= 1,
                -1 <= dc <= 1,
                0 <= k < 4,
                line@.len() == 4,
                0 <= i <= 4,
                w == self@.window(dr as int, dc as int, k as int),
                ok == (forall|j: int| 0 <= j < i ==> w[j] == line@[j]),
            decreases 4 - i,
        {
            let c = self.cell_from_last(dr, dc, i - k);
            assert(c == w[i as int]);
            if c != line[i as usize] {
                ok = false;
            }
            i = i + 1;
        }
        proof {
            if ok {
                assert(w =~= line@);
            }
        }
        ok
    }

    /// Whether one of the four windows through the last move in direction
    /// (`dr`, `dc`) spells `line`.
    fn spells_along(&self, dr: i64, dc: i64, line: &Vec<Cell>) -> (r: bool)
        requires
            self.wf(),
            -1 <= dr <= 1,
            -1 <= dc <= 1,
            line@.len() == 4,
        ensures
            r == self@.spells_along(dr as int, dc as int, line@),
    {
        let a = self.window_spells(dr, dc, 0, line);
        let b = self.window_spells(dr, dc, 1, line);
        let c = self.window_spells(dr, dc, 2, line);
        let d = self.window_spells(dr, dc, 3, line);
        a || b || c || d
    }

    /// Whether a window through the last move spells `line` in one of the
    /// four directions.
    fn completes(&self, line: &Vec<Cell>) -> (r: bool)
        requires
            self.wf(),
            line@.len() == 4,
        ensures
            r == self@.completes(line@),
    {
        let across = self.spells_along(0, 1, line);
        let down = self.spells_along(1, 0, line);
        let falling = self.spells_along(1, 1, line);
        let rising = self.spells_along(1, -1, line);
        across || down || falling || rising
    }

    /// Whether the last move decided the game, and for whom: the mover
    /// where a window through the last move spells the mover's line, else
    /// the other player where one spells that player's line. Without a
    /// winner the name is empty. Before the first move nobody has won.
    pub fn _has_winner(&self) -> (r: (bool, String))
        requires
            self.wf(),
        ensures
            r.0 == self@.has_winner(),
            r.1@ == self@.winner(),
    {
        if self.last_row == -1 && self.last_col == -1 {
            return (false, String::new());
        }
        let mut mine: Vec<Cell> = Vec::new();
        let mut theirs: Vec<Cell> = Vec::new();
        let mut i: usize = 0;
        while i < 4
            invariant
                self.mode@.len() == 4,
                0 <= i <= 4,
                mine@.len() == i,
                theirs@.len() == i,
                forall|j: int| 0 <= j < i ==> mine@[j] == self@.mover_line()[j],
                forall|j: int| 0 <= j < i ==> theirs@[j] == self@.enemy_line()[j],
            decreases 4 - i,
        {
            let bit = self.mode[i];
            mine.push(self.pattern(&self.last_player, &bit));
            theirs.push(self.pattern_enemy(&self.last_player, &bit));
            i = i + 1;
        }
        assert(mine@ =~= self@.mover_line());
        assert(theirs@ =~= self@.enemy_line());
        let is_win = self.completes(&mine);
        let is_lose = self.completes(&theirs);
        if is_win {
            (true, self.last_player.clone())
        } else if is_lose {
            (true, self.get_next_player())
        } else {
            (false, String::new())
        }
    }

    /// Whether the last move decided the game.
    pub fn has_winner(&self) -> (r: bool)
        requires
            self.wf(),
        ensures
            r == self@.has_winner(),
    {
        self._has_winner().0
    }

    /// Whether the game is over: somebody has won, or nobody can move.
    pub fn is_terminal(&self) -> (r: bool)
        requires
            self.wf(),
        ensures
            r == self@.is_terminal(),
    {
        self.has_winner() || self.is_draw()
    }

    /// The outcome as a number: 1 where the first player has won, -1 where
    /// anyone else has, 0 for a draw and 2 while the game goes on. The
    /// symbol choice has no part in it.
    pub fn game_value(&self, reverse: &bool) -> (r: i64)
        requires
            self.wf(),
        ensures
            r == self@.game_value(),
    {
        let (hw, winner) = self._has_winner();
        if hw {
            if winner == self.player_1 {
                1
            } else {
                -1
            }
        } else if self.is_draw() {
            0
        } else {
            2
        }
    }
}

/// Windows are clipped to the grid: a window that spells a line of symbols
/// has every cell inside the grid.
pub proof fn law_window_inside(v: BoardView, dr: int, dc: int, k: int, line: Seq<Cell>, i: int)
    requires
        v.window(dr, dc, k) == line,
        line.len() == 4,
        0 <= i < 4,
        line[i] != Cell::Empty,
    ensures
        in_bounds(v.last_row + (i - k) * dr, v.last_col + (i - k) * dc, v.width, v.height),
{
}

/// Read against the scan direction, a window shows its cells in reverse
/// order.
pub proof fn lemma_opposite_scan(v: BoardView, dr: int, dc: int, k: int)
    ensures
        v.window(-dr, -dc, 3 - k) == v.window(dr, dc, k).reverse(),
{
    let a = v.window(-dr, -dc, 3 - k);
    let b = v.window(dr, dc, k).reverse();
    assert forall|i: int| 0 <= i < 4 implies a[i] == b[i] by {
        assert((i - (3 - k)) * (-dr) == (3 - i - k) * dr) by (nonlinear_arith);
        assert((i - (3 - k)) * (-dc) == (3 - i - k) * dc) by (nonlinear_arith);
    }
}

/// Whether a pattern reads the same in both directions.
pub open spec fn palindromic(mode: Seq<bool>) -> bool {
    mode[0] == mode[3] && mode[1] == mode[2]
}

/// With a pattern that reads the same in both directions, a window spells a
/// player's line exactly when the same cells do so scanned the other way.
pub proof fn law_palindrome_both_ways(v: BoardView, dr: int, dc: int, k: int)
    requires
        v.mode.len() == 4,
        palindromic(v.mode),
    ensures
        (v.window(dr, dc, k) == v.mover_line()) == (v.window(-dr, -dc, 3 - k) == v.mover_line()),
        (v.window(dr, dc, k) == v.enemy_line()) == (v.window(-dr, -dc, 3 - k) == v.enemy_line()),
{
    lemma_opposite_scan(v, dr, dc, k);
    let w = v.window(dr, dc, k);
    let me = v.mover_line();
    let other = v.enemy_line();
    assert(me.reverse() =~= me);
    assert(other.reverse() =~= other);
    assert(w.reverse().reverse() =~= w);
}

/// With a pattern that does not read the same in both directions, cells
/// that spell a player's line do not spell it scanned the other way.
pub proof fn law_one_way_only(v: BoardView, dr: int, dc: int, k: int)
    requires
        v.mode.len() == 4,
        !palindromic(v.mode),
    ensures
        v.window(dr, dc, k) == v.mover_line() ==> v.window(-dr, -dc, 3 - k) != v.mover_line(),
        v.window(dr, dc, k) == v.enemy_line() ==> v.window(-dr, -dc, 3 - k) != v.enemy_line(),
{
    lemma_opposite_scan(v, dr, dc, k);
    let me = v.mover_line();
    let other = v.enemy_line();
    if v.mode[0] != v.mode[3] {
        assert(me.reverse()[0] == me[3]);
        assert(other.reverse()[0] == other[3]);
    } else {
        assert(me.reverse()[1] == me[2]);
        assert(other.reverse()[1] == other[2]);
    }
}

} // verus!
