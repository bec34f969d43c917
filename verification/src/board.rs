//! The board: a grid plus the players, the winning pattern, the last move
//! and, in the scarce-inventory variant, the pieces each player has left.

use crate::grid::{empty_cells, in_bounds, rectangular, with_cell, Cell, Grid};
use vstd::prelude::*;

verus! {

/// Pieces settle: below an occupied cell every cell is occupied.
pub open spec fn settled(cells: Seq<Seq<Cell>>, width: int, height: int) -> bool {
    forall|c: int, r1: int, r2: int|
        0 <= c < width && 0 <= r1 <= r2 < height && (#[trigger] cells[r1][c]) != Cell::Empty
            ==> (#[trigger] cells[r2][c]) != Cell::Empty
}

/// The lowest empty row of column `col` among rows `0..=from`, or -1 when
/// all of them are occupied.
pub open spec fn lowest_empty(cells: Seq<Seq<Cell>>, col: int, from: int) -> int
    decreases from + 1,
{
    if from < 0 {
        -1
    } else if cells[from][col] == Cell::Empty {
        from
    } else {
        lowest_empty(cells, col, from - 1)
    }
}

/// The highest occupied row of column `col` among rows `from..height`, or
/// `height` when all of them are empty.
pub open spec fn topmost_piece(cells: Seq<Seq<Cell>>, col: int, from: int, height: int) -> int
    decreases height - from,
{
    if from >= height {
        height
    } else if cells[from][col] != Cell::Empty {
        from
    } else {
        topmost_piece(cells, col, from + 1, height)
    }
}

/// A remaining-pieces list is either absent or holds two counts that are
/// not negative.
pub open spec fn inventory_ok(first: Seq<i64>, second: Seq<i64>) -> bool {
    ||| first.len() == 0 && second.len() == 0
    ||| first.len() == 2 && second.len() == 2 && first[0] >= 0 && first[1] >= 0 && second[0] >= 0
        && second[1] >= 0
}

/// The mathematical value of a board.
pub struct BoardView {
    pub width: int,
    pub height: int,
    pub cells: Seq<Seq<Cell>>,
    /// Row of the last piece placed, -1 before the first move.
    pub last_row: int,
    /// Column of the last piece placed, -1 before the first move.
    pub last_col: int,
    /// Who placed the last piece.
    pub last_player: Seq<char>,
    pub player_1: Seq<char>,
    pub player_2: Seq<char>,
    /// The winning pattern: `false` stands for the mover's own symbol,
    /// `true` for the other one.
    pub mode: Seq<bool>,
    pub difficulty: int,
    /// What the first player has left of (own symbol, other symbol); empty
    /// when pieces are unlimited.
    pub p1_remain: Seq<i64>,
    /// The same for the second player.
    pub p2_remain: Seq<i64>,
}

impl BoardView {
    /// The invariant of every board.
    pub open spec fn wf(self) -> bool {
        &&& rectangular(self.cells, self.width, self.height)
        &&& self.width <= i64::MAX
        &&& self.height <= i64::MAX
        &&& settled(self.cells, self.width, self.height)
        &&& (self.mode.len() == 4 || (self.width == 0 && self.height == 0))
        &&& ((self.last_row == -1 && self.last_col == -1) || in_bounds(
            self.last_row,
            self.last_col,
            self.width,
            self.height,
        ))
        &&& inventory_ok(self.p1_remain, self.p2_remain)
    }

    /// Whether each player has a limited supply of each symbol.
    pub open spec fn scarce(self) -> bool {
        self.p1_remain.len() == 2
    }

    /// Whether `player` plays the first side. Every other name plays the
    /// second side.
    pub open spec fn is_first(self, player: Seq<char>) -> bool {
        player == self.player_1
    }

    /// The player on the other side.
    pub open spec fn opponent(self, player: Seq<char>) -> Seq<char> {
        if self.is_first(player) {
            self.player_2
        } else {
            self.player_1
        }
    }

    /// The player whose turn it is: the one who did not move last.
    pub open spec fn next_player(self) -> Seq<char> {
        self.opponent(self.last_player)
    }

    /// The symbol that `player` places: the own one, or with `reverse` the
    /// other one.
    pub open spec fn symbol(self, player: Seq<char>, reverse: bool) -> Cell {
        let own = if self.is_first(player) {
            Cell::T
        } else {
            Cell::O
        };
        if reverse {
            own.flipped()
        } else {
            own
        }
    }

    /// How many pieces of the chosen symbol `player` has left, in the scarce
    /// variant.
    pub open spec fn remaining(self, player: Seq<char>, reverse: bool) -> int {
        let counts = if self.is_first(player) {
            self.p1_remain
        } else {
            self.p2_remain
        };
        if reverse {
            counts[1] as int
        } else {
            counts[0] as int
        }
    }

    /// The cell at (row, col); outside the grid every cell counts as empty.
    pub open spec fn cell(self, row: int, col: int) -> Cell {
        if in_bounds(row, col, self.width, self.height) {
            self.cells[row][col]
        } else {
            Cell::Empty
        }
    }

    /// Whether column `col` exists and its top cell is empty.
    pub open spec fn column_open(self, col: int) -> bool {
        0 <= col < self.width && 0 < self.height && self.cells[0][col] == Cell::Empty
    }

    /// Whether `player` may drop the chosen symbol into column `col`.
    pub open spec fn allows_move(self, col: int, player: Seq<char>, reverse: bool) -> bool {
        (self.scarce() ==> self.remaining(player, reverse) != 0) && self.column_open(col)
    }

    /// The row in which a piece dropped into `col` comes to rest.
    pub open spec fn landing_row(self, col: int) -> int {
        lowest_empty(self.cells, col, self.height - 1)
    }

    /// The inventories after `player` has spent (`delta` = -1) or regained
    /// (`delta` = 1) one piece of the chosen symbol.
    pub open spec fn adjusted(self, player: Seq<char>, reverse: bool, delta: int) -> (Seq<i64>, Seq<
        i64,
    >) {
        let k: int = if reverse {
            1
        } else {
            0
        };
        if !self.scarce() {
            (self.p1_remain, self.p2_remain)
        } else if self.is_first(player) {
            (self.p1_remain.update(k, (self.p1_remain[k] + delta) as i64), self.p2_remain)
        } else {
            (self.p1_remain, self.p2_remain.update(k, (self.p2_remain[k] + delta) as i64))
        }
    }

    /// The board after `player` has dropped the chosen symbol into `col`.
    pub open spec fn apply(self, col: int, player: Seq<char>, reverse: bool) -> BoardView {
        let row = self.landing_row(col);
        let inv = self.adjusted(player, reverse, -1);
        BoardView {
            cells: with_cell(self.cells, row, col, self.symbol(player, reverse)),
            last_row: row,
            last_col: col,
            last_player: player,
            p1_remain: inv.0,
            p2_remain: inv.1,
            ..self
        }
    }

    /// Whether column `col` exists and holds a piece to take back.
    pub open spec fn has_piece(self, col: int) -> bool {
        0 <= col < self.width && topmost_piece(self.cells, col, 0, self.height) < self.height
    }

    /// Whether taking back the top piece of `col` keeps the restored count
    /// within the machine's range.
    pub open spec fn undo_fits(self, col: int) -> bool {
        let row = topmost_piece(self.cells, col, 0, self.height);
        self.has_piece(col) && self.scarce() ==> self.remaining(
            self.last_player,
            self.cells[row][col] != self.symbol(self.last_player, false),
        ) < i64::MAX
    }

    /// The board after the top piece of `col` has been taken back and the
    /// last mover has regained it. The record of the last move stays as it
    /// is. A column without a piece leaves the board unchanged.
    pub open spec fn undo(self, col: int) -> BoardView {
        let row = topmost_piece(self.cells, col, 0, self.height);
        if !self.has_piece(col) {
            self
        } else {
            let reverse = self.cells[row][col] != self.symbol(self.last_player, false);
            let inv = self.adjusted(self.last_player, reverse, 1);
            BoardView {
                cells: with_cell(self.cells, row, col, Cell::Empty),
                p1_remain: inv.0,
                p2_remain: inv.1,
                ..self
            }
        }
    }

    /// The legal columns below `bound`, in ascending order.
    pub open spec fn legal_columns(self, player: Seq<char>, reverse: bool, bound: int) -> Seq<i64>
        decreases bound,
    {
        if bound <= 0 {
            Seq::empty()
        } else {
            let rest = self.legal_columns(player, reverse, bound - 1);
            if self.allows_move(bound - 1, player, reverse) {
                rest.push((bound - 1) as i64)
            } else {
                rest
            }
        }
    }

    /// Whether `player` has any legal move with the chosen symbol.
    pub open spec fn can_move(self, player: Seq<char>, reverse: bool) -> bool {
        exists|col: int| self.allows_move(col, player, reverse)
    }

    /// Nobody can move: neither player, with neither symbol.
    pub open spec fn is_draw(self) -> bool {
        &&& !self.can_move(self.player_1, false)
        &&& !self.can_move(self.player_1, true)
        &&& !self.can_move(self.player_2, false)
        &&& !self.can_move(self.player_2, true)
    }
}

/// The board a game starts from.
pub open spec fn initial_view(
    w: int,
    h: int,
    first: Seq<char>,
    second: Seq<char>,
    m: Seq<bool>,
    d: int,
    first_remain: Seq<i64>,
    second_remain: Seq<i64>,
) -> BoardView {
    BoardView {
        width: w,
        height: h,
        cells: empty_cells(w, h),
        last_row: -1,
        last_col: -1,
        last_player: second,
        player_1: first,
        player_2: second,
        mode: m,
        difficulty: d,
        p1_remain: first_remain,
        p2_remain: second_remain,
    }
}

/// Why a board could not be set up.
#[derive(Clone, Copy, Debug, PartialEq, Eq, Structural)]
pub enum ConfigError {
    /// The width or the height is not positive.
    Dimensions,
    /// The winning pattern does not have exactly four positions.
    Pattern,
    /// The remaining-pieces lists are neither both empty nor both two
    /// counts that are not negative.
    Inventory,
}

/// The first fault of a configuration, if it has one.
pub open spec fn config_fault(
    w: int,
    h: int,
    m: Seq<bool>,
    first_remain: Seq<i64>,
    second_remain: Seq<i64>,
) -> Option<ConfigError> {
    if w <= 0 || h <= 0 {
        Some(ConfigError::Dimensions)
    } else if m.len() != 4 {
        Some(ConfigError::Pattern)
    } else if !inventory_ok(first_remain, second_remain) {
        Some(ConfigError::Inventory)
    } else {
        None
    }
}

/// A game in progress.
#[derive(Clone, Debug, PartialEq, Eq)]
pub struct Board {
    pub grid: Grid,
    /// Row of the last piece placed, -1 before the first move.
    pub last_row: i64,
    /// Column of the last piece placed, -1 before the first move.
    pub last_col: i64,
    /// Who placed the last piece.
    pub last_player: String,
    pub player_1: String,
    pub player_2: String,
    /// The winning pattern: `false` stands for the mover's own symbol,
    /// `true` for the other one.
    pub mode: Vec<bool>,
    /// How many plies the computer looks ahead.
    pub difficulty: i64,
    /// What the first player has left of (own symbol, other symbol); empty
    /// when pieces are unlimited.
    pub p1_remain: Vec<i64>,
    /// The same for the second player.
    pub p2_remain: Vec<i64>,
}

impl View for Board {
    type V = BoardView;

    open spec fn view(&self) -> BoardView {
        BoardView {
            width: self.grid.width as int,
            height: self.grid.height as int,
            cells: self.grid@,
            last_row: self.last_row as int,
            last_col: self.last_col as int,
            last_player: self.last_player@,
            player_1: self.player_1@,
            player_2: self.player_2@,
            mode: self.mode@,
            difficulty: self.difficulty as int,
            p1_remain: self.p1_remain@,
            p2_remain: self.p2_remain@,
        }
    }
}

fn inventory_valid(first_remain: &Vec<i64>, second_remain: &Vec<i64>) -> (ok: bool)
    ensures
        ok == inventory_ok(first_remain@, second_remain@),
{
    if first_remain.len() == 0 && second_remain.len() == 0 {
        true
    } else if first_remain.len() == 2 && second_remain.len() == 2 {
        first_remain[0] >= 0 && first_remain[1] >= 0 && second_remain[0] >= 0
            && second_remain[1] >= 0
    } else {
        false
    }
}

/// Whether no piece of column `c` floats directly over an empty cell.
pub open spec fn column_settled(cells: Seq<Seq<Cell>>, c: int, height: int) -> bool {
    forall|r: int| 0 <= r && r + 1 < height && (#[trigger] cells[r][c]) != Cell::Empty ==> cells[r
        + 1][c] != Cell::Empty
}

/// In a column where no piece floats directly over an empty cell, every
/// cell below a piece holds a piece.
pub proof fn lemma_column_settled(cells: Seq<Seq<Cell>>, c: int, height: int, r1: int, r2: int)
    requires
        column_settled(cells, c, height),
        0 <= r1 <= r2 < height,
        cells[r1][c] != Cell::Empty,
    ensures
        cells[r2][c] != Cell::Empty,
    decreases r2 - r1,
{
    if r1 < r2 {
        lemma_column_settled(cells, c, height, r1 + 1, r2);
    }
}

impl Board {
    /// The invariant of every board.
    pub open spec fn wf(&self) -> bool {
        self@.wf()
    }

    /// Whether every column is filled from the bottom without a gap.
    fn is_settled(&self) -> (ok: bool)
        requires
            self.grid.wf(),
        ensures
            ok == settled(self@.cells, self@.width, self@.height),
    {
        let mut c: i64 = 0;
        while c < self.grid.width
            invariant
                self.grid.wf(),
                0 <= c <= self.grid.width,
                forall|k: int| 0 <= k < c ==> column_settled(self@.cells, k, self@.height),
            decreases self.grid.width - c,
        {
            let mut r: i64 = 0;
            while r < self.grid.height - 1
                invariant
                    self.grid.wf(),
                    0 <= c < self.grid.width,
                    0 <= r,
                    r <= self.grid.height - 1 || self.grid.height == 0,
                    forall|k: int|
                        0 <= k < r && (#[trigger] self@.cells[k][c as int]) != Cell::Empty
                            ==> self@.cells[k + 1][c as int] != Cell::Empty,
                decreases self.grid.height - r,
            {
                let upper = self.grid.get(r, c);
                let lower = self.grid.get(r + 1, c);
                let floats = match (upper, lower) {
                    (Ok(u), Ok(l)) => u != Cell::Empty && l == Cell::Empty,
                    _ => false,
                };
                if floats {
                    assert(self@.cells[r as int][c as int] != Cell::Empty);
                    return false;
                }
                r = r + 1;
            }
            c = c + 1;
        }
        proof {
            assert forall|k: int, r1: int, r2: int|
                0 <= k < self@.width && 0 <= r1 <= r2 < self@.height && (
                #[trigger] self@.cells[r1][k]) != Cell::Empty implies (
            #[trigger] self@.cells[r2][k]) != Cell::Empty by {
                lemma_column_settled(self@.cells, k, self@.height, r1, r2);
            }
        }
        true
    }

    /// Whether the board meets the invariant. A board that was put
    /// together field by field is checked with this before it is played on.
    pub fn is_well_formed(&self) -> (ok: bool)
        ensures
            ok == self.wf(),
    {
        if !self.grid.is_well_formed() {
            return false;
        }
        if !self.is_settled() {
            return false;
        }
        if self.mode.len() != 4 && !(self.grid.width == 0 && self.grid.height == 0) {
            return false;
        }
        let unmoved = self.last_row == -1 && self.last_col == -1;
        let inside = 0 <= self.last_row && self.last_row < self.grid.height && 0 <= self.last_col
            && self.last_col < self.grid.width;
        if !unmoved && !inside {
            return false;
        }
        inventory_valid(&self.p1_remain, &self.p2_remain)
    }

    /// A board without cells, for answers that carry no game.
    pub fn empty() -> (b: Board)
        ensures
            b.wf(),
            b@ == initial_view(
                0,
                0,
                " "@,
                " "@,
                Seq::<bool>::empty(),
                1,
                Seq::empty(),
                Seq::empty(),
            ),
    {
        let b = Board {
            grid: Grid::new(0, 0),
            last_row: -1,
            last_col: -1,
            last_player: " ".to_owned(),
            player_1: " ".to_owned(),
            player_2: " ".to_owned(),
            mode: Vec::new(),
            difficulty: 1,
            p1_remain: Vec::new(),
            p2_remain: Vec::new(),
        };
        b
    }

    /// A fresh board of `w` columns and `h` rows for players `first` and `second`,
    /// with winning pattern `m`, look-ahead `d` and the given inventories
    /// (both empty for unlimited pieces). The second player counts as the
    /// last mover, so the first player begins. A faulty configuration is
    /// refused.
    pub fn new(
        w: i64,
        h: i64,
        first: String,
        second: String,
        m: Vec<bool>,
        d: i64,
        first_remain: Vec<i64>,
        second_remain: Vec<i64>,
    ) -> (r: Result<Board, ConfigError>)
        ensures
            match r {
                Ok(b) => {
                    &&& config_fault(w as int, h as int, m@, first_remain@, second_remain@)
                        is None
                    &&& b.wf()
                    &&& b@ == initial_view(
                        w as int,
                        h as int,
                        first@,
                        second@,
                        m@,
                        d as int,
                        first_remain@,
                        second_remain@,
                    )
                },
                Err(e) => config_fault(w as int, h as int, m@, first_remain@, second_remain@)
                    == Some(e),
            },
    {
        if w <= 0 || h <= 0 {
            return Err(ConfigError::Dimensions);
        }
        if m.len() != 4 {
            return Err(ConfigError::Pattern);
        }
        if !inventory_valid(&first_remain, &second_remain) {
            return Err(ConfigError::Inventory);
        }
        let last_player = second.clone();
        let b = Board {
            grid: Grid::new(w, h),
            last_row: -1,
            last_col: -1,
            last_player,
            player_1: first,
            player_2: second,
            mode: m,
            difficulty: d,
            p1_remain: first_remain,
            p2_remain: second_remain,
        };
        Ok(b)
    }

    /// The cell at (row, col); outside the grid every cell counts as empty.
    pub fn cell(&self, row: i64, col: i64) -> (c: Cell)
        requires
            self.wf(),
        ensures
            c == self@.cell(row as int, col as int),
    {
        match self.grid.get(row, col) {
            Ok(c) => c,
            Err(_) => Cell::Empty,
        }
    }

    /// The player on the other side: the second player for the first, the
    /// first player for anyone else.
    pub fn opponent(&self, player: &String) -> (r: String)
        ensures
            r@ == self@.opponent(player@),
    {
        if *player == self.player_1 {
            self.player_2.clone()
        } else {
            self.player_1.clone()
        }
    }

    /// The player whose turn it is.
    pub fn get_next_player(&self) -> (r: String)
        ensures
            r@ == self@.next_player(),
    {
        self.opponent(&self.last_player)
    }

    /// Whether `player` may drop the chosen symbol into column `col`: the
    /// column exists, its top cell is empty and, where pieces are scarce,
    /// the player has one of that symbol left.
    pub fn allows_move(&self, col: &i64, player: &String, reverse: &bool) -> (ok: bool)
        requires
            self.wf(),
        ensures
            ok == self@.allows_move(*col as int, player@, *reverse),
    {
        if self.p1_remain.len() == 2 {
            let counts = if *player == self.player_1 {
                &self.p1_remain
            } else {
                &self.p2_remain
            };
            let left: i64 = if *reverse {
                counts[1]
            } else {
                counts[0]
            };
            if left == 0 {
                return false;
            }
        }
        if *col < 0 || *col >= self.grid.width {
            return false;
        }
        self.grid.height > 0 && self.cell(0, *col) == Cell::Empty
    }
}

} // verus!
