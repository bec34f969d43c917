//! The rectangular cell store. Row 0 is the top row; pieces settle at the
//! bottom, so a column fills from the highest row index upward.

use vstd::prelude::*;

verus! {

/// What one cell holds.
#[derive(Clone, Copy, Debug, PartialEq, Eq, Structural)]
pub enum Cell {
    /// Nothing has been dropped here.
    Empty,
    /// The first player's own symbol.
    T,
    /// The second player's own symbol.
    O,
}

impl Cell {
    /// The other symbol; an empty cell stays empty.
    pub open spec fn flipped(self) -> Cell {
        match self {
            Cell::Empty => Cell::Empty,
            Cell::T => Cell::O,
            Cell::O => Cell::T,
        }
    }

    /// The other symbol; an empty cell stays empty.
    pub fn flip(self) -> (c: Cell)
        ensures
            c == self.flipped(),
    {
        match self {
            Cell::Empty => Cell::Empty,
            Cell::T => Cell::O,
            Cell::O => Cell::T,
        }
    }
}

/// Why a grid access failed.
#[derive(Clone, Copy, Debug, PartialEq, Eq, Structural)]
pub enum GridError {
    /// The row is not in `[0, height)` or the column is not in `[0, width)`.
    OutOfBounds,
}

/// A `height` by `width` store of cells, addressed by (row, column).
#[derive(Clone, Debug, PartialEq, Eq)]
pub struct Grid {
    pub width: i64,
    pub height: i64,
    pub cells: Vec<Vec<Cell>>,
}

impl View for Grid {
    type V = Seq<Seq<Cell>>;

    /// The rows from top to bottom, each from left to right.
    open spec fn view(&self) -> Seq<Seq<Cell>> {
        Seq::new(self.cells@.len(), |r: int| self.cells@[r]@)
    }
}

/// A `height` by `width` rectangle of empty cells.
pub open spec fn empty_cells(width: int, height: int) -> Seq<Seq<Cell>> {
    Seq::new(height as nat, |r: int| Seq::new(width as nat, |c: int| Cell::Empty))
}

/// `cells` is a rectangle of `height` rows and `width` columns.
pub open spec fn rectangular(cells: Seq<Seq<Cell>>, width: int, height: int) -> bool {
    &&& 0 <= width
    &&& 0 <= height
    &&& cells.len() == height
    &&& forall|r: int| 0 <= r < height ==> (#[trigger] cells[r]).len() == width
}

/// Whether (row, col) addresses a cell of a `height` by `width` grid.
pub open spec fn in_bounds(row: int, col: int, width: int, height: int) -> bool {
    0 <= row < height && 0 <= col < width
}

/// `cells` with the cell at (row, col) replaced by `value`.
pub open spec fn with_cell(cells: Seq<Seq<Cell>>, row: int, col: int, value: Cell) -> Seq<
    Seq<Cell>,
> {
    cells.update(row, cells[row].update(col, value))
}

impl Grid {
    /// The stored rows agree with the recorded dimensions.
    pub open spec fn wf(&self) -> bool {
        rectangular(self@, self.width as int, self.height as int)
    }

    /// Row `row` of the view is the stored row, and has `width` cells.
    pub proof fn lemma_row(&self, row: int)
        requires
            self.wf(),
            0 <= row < self.height,
        ensures
            self.cells@.len() == self.height,
            self@[row] == self.cells@[row]@,
            self.cells@[row]@.len() == self.width,
            self.height <= usize::MAX,
            self.width <= usize::MAX,
    {
        assert(self.cells.len() <= usize::MAX);
        assert(self.cells@[row].len() <= usize::MAX);
        assert(self@[row] == self.cells@[row]@);
    }

    /// A grid of the given dimensions with every cell empty.
    pub fn new(width: i64, height: i64) -> (g: Grid)
        requires
            0 <= width,
            0 <= height,
        ensures
            g.wf(),
            g.width == width,
            g.height == height,
            g@ == empty_cells(width as int, height as int),
    {
        let mut cells: Vec<Vec<Cell>> = Vec::new();
        let mut r: i64 = 0;
        while r < height
            invariant
                0 <= r <= height,
                0 <= width,
                cells@.len() == r,
                forall|i: int|
                    0 <= i < r ==> (#[trigger] cells@[i])@ == Seq::new(
                        width as nat,
                        |c: int| Cell::Empty,
                    ),
            decreases height - r,
        {
            let mut row: Vec<Cell> = Vec::new();
            let mut c: i64 = 0;
            while c < width
                invariant
                    0 <= c <= width,
                    row@ == Seq::new(c as nat, |k: int| Cell::Empty),
                decreases width - c,
            {
                row.push(Cell::Empty);
                c = c + 1;
            }
            cells.push(row);
            r = r + 1;
        }
        let g = Grid { width, height, cells };
        g
    }

    /// Whether the stored rows agree with the recorded dimensions.
    pub fn is_well_formed(&self) -> (ok: bool)
        ensures
            ok == self.wf(),
    {
        if self.width < 0 || self.height < 0 {
            return false;
        }
        if self.cells.len() as i128 != self.height as i128 {
            return false;
        }
        let mut r: usize = 0;
        while r < self.cells.len()
            invariant
                0 <= self.width,
                self.cells@.len() == self.height,
                0 <= r <= self.cells@.len(),
                forall|i: int| 0 <= i < r ==> (#[trigger] self.cells@[i])@.len() == self.width,
            decreases self.cells@.len() - r,
        {
            if self.cells[r].len() as i128 != self.width as i128 {
                assert(self@[r as int] == self.cells@[r as int]@);
                return false;
            }
            r = r + 1;
        }
        true
    }

    /// The cell at (row, col), or `OutOfBounds` when either index lies
    /// outside the grid.
    pub fn get(&self, row: i64, col: i64) -> (r: Result<Cell, GridError>)
        requires
            self.wf(),
        ensures
            r == (if in_bounds(row as int, col as int, self.width as int, self.height as int) {
                Ok::<Cell, GridError>(self@[row as int][col as int])
            } else {
                Err::<Cell, GridError>(GridError::OutOfBounds)
            }),
    {
        if row < 0 || row >= self.height || col < 0 || col >= self.width {
            return Err(GridError::OutOfBounds);
        }
        proof {
            self.lemma_row(row as int);
        }
        Ok(self.cells[row as usize][col as usize])
    }

    /// Stores `value` at (row, col). An address outside the grid leaves the
    /// grid as it was.
    pub fn set(&mut self, row: i64, col: i64, value: Cell)
        requires
            old(self).wf(),
        ensures
            final(self).wf(),
            final(self).width == old(self).width,
            final(self).height == old(self).height,
            in_bounds(row as int, col as int, old(self).width as int, old(self).height as int)
                ==> final(self)@ == with_cell(old(self)@, row as int, col as int, value),
            !in_bounds(row as int, col as int, old(self).width as int, old(self).height as int)
                ==> final(self)@ == old(self)@,
    {
        if row < 0 || row >= self.height || col < 0 || col >= self.width {
            return;
        }
        proof {
            self.lemma_row(row as int);
        }
        self.cells[row as usize][col as usize] = value;
        assert(self@ =~= with_cell(old(self)@, row as int, col as int, value));
    }
}

} // verus!
