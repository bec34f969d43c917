//! The board as text, for a terminal.

use crate::board::{Board, BoardView};
use crate::grid::Cell;
use vstd::prelude::*;
use vstd::string::*;

verus! {

/// The text of one decimal digit.
pub open spec fn digit_text(d: int) -> Seq<char> {
    if d == 0 {
        "0"@
    } else if d == 1 {
        "1"@
    } else if d == 2 {
        "2"@
    } else if d == 3 {
        "3"@
    } else if d == 4 {
        "4"@
    } else if d == 5 {
        "5"@
    } else if d == 6 {
        "6"@
    } else if d == 7 {
        "7"@
    } else if d == 8 {
        "8"@
    } else {
        "9"@
    }
}

/// The decimal text of a number that is not negative.
pub open spec fn decimal(n: int) -> Seq<char>
    decreases n,
{
    if n < 10 {
        digit_text(n)
    } else {
        decimal(n / 10) + digit_text(n % 10)
    }
}

/// The text of a cell: `T`, `O` or a blank.
pub open spec fn cell_text(c: Cell) -> Seq<char> {
    match c {
        Cell::T => "T"@,
        Cell::O => "O"@,
        Cell::Empty => " "@,
    }
}

/// A rule of `2 * n + 1` dashes.
pub open spec fn rule(n: int) -> Seq<char>
    decreases n,
{
    if n <= 0 {
        "-"@
    } else {
        rule(n - 1) + "--"@
    }
}

/// The column numbers below `upto`, each after a blank.
pub open spec fn labels(upto: int) -> Seq<char>
    decreases upto,
{
    if upto <= 0 {
        Seq::empty()
    } else {
        labels(upto - 1) + " "@ + decimal(upto - 1)
    }
}

impl BoardView {
    /// Row `row` up to column `upto`: a bar, then each cell followed by a
    /// bar.
    pub open spec fn row_text(self, row: int, upto: int) -> Seq<char>
        decreases upto,
    {
        if upto <= 0 {
            "|"@
        } else {
            self.row_text(row, upto - 1) + cell_text(self.cell(row, upto - 1)) + "|"@
        }
    }

    /// The rows above `upto`, one per line.
    pub open spec fn rows_text(self, upto: int) -> Seq<char>
        decreases upto,
    {
        if upto <= 0 {
            Seq::empty()
        } else {
            self.rows_text(upto - 1) + self.row_text(upto - 1, self.width) + "\n"@
        }
    }

    /// The whole picture: the rows from the top, a rule of dashes, and the
    /// column numbers.
    pub open spec fn picture(self) -> Seq<char> {
        self.rows_text(self.height) + rule(self.width) + "\n"@ + labels(self.width)
    }
}

fn digit_str(d: i64) -> (s: &'static str)
    requires
        0 <= d < 10,
    ensures
        s@ == digit_text(d as int),
{
    if d == 0 {
        "0"
    } else if d == 1 {
        "1"
    } else if d == 2 {
        "2"
    } else if d == 3 {
        "3"
    } else if d == 4 {
        "4"
    } else if d == 5 {
        "5"
    } else if d == 6 {
        "6"
    } else if d == 7 {
        "7"
    } else if d == 8 {
        "8"
    } else {
        "9"
    }
}

/// Appends the decimal text of `n` to `out`.
fn push_decimal(out: &mut String, n: i64)
    requires
        0 <= n,
    ensures
        final(out)@ == old(out)@ + decimal(n as int),
    decreases n,
{
    if n >= 10 {
        push_decimal(out, n / 10);
    }
    out.append(digit_str(n % 10));
}

impl Board {
    /// The board as text: each row between bars, from the top; a rule of
    /// dashes; the column numbers.
    pub fn print(&self) -> (s: String)
        requires
            self.wf(),
        ensures
            s@ == self@.picture(),
    {
        let mut out = String::new();
        let mut row: i64 = 0;
        while row < self.grid.height
            invariant
                self.wf(),
                0 <= row <= self.grid.height,
                out@ == self@.rows_text(row as int),
            decreases self.grid.height - row,
        {
            let ghost above = out@;
            out.append("|");
            let mut col: i64 = 0;
            while col < self.grid.width
                invariant
                    self.wf(),
                    0 <= row < self.grid.height,
                    0 <= col <= self.grid.width,
                    out@ == above + self@.row_text(row as int, col as int),
                decreases self.grid.width - col,
            {
                match self.cell(row, col) {
                    Cell::T => out.append("T"),
                    Cell::O => out.append("O"),
                    Cell::Empty => out.append(" "),
                }
                out.append("|");
                col = col + 1;
            }
            out.append("\n");
            row = row + 1;
        }
        let ghost rows = out@;
        out.append("-");
        let mut col: i64 = 0;
        while col < self.grid.width
            invariant
                0 <= col <= self.grid.width,
                out@ == rows + rule(col as int),
            decreases self.grid.width - col,
        {
            out.append("--");
            col = col + 1;
        }
        out.append("\n");
        let ghost head = out@;
        col = 0;
        while col < self.grid.width
            invariant
                0 <= col <= self.grid.width,
                out@ == head + labels(col as int),
            decreases self.grid.width - col,
        {
            out.append(" ");
            push_decimal(&mut out, col);
            col = col + 1;
        }
        out
    }
}

} // verus!
