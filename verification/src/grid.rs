//! The mathematical model of the grid: its shape, its cells in row-major
//! order, the toroidal neighborhood of a cell and the step from one generation
//! to the next.

use vstd::prelude::*;
use crate::cell::{rule, Cell};

verus! {

/// The row or column reached from `i` by the offset `delta` on a ring of
/// `n` positions: one step below 0 lies `n - 1`, one step above `n - 1` lies 0.
pub open spec fn wrap(i: int, delta: int, n: int) -> int {
    (i + n + delta) % n
}

/// A grid of `height` rows and `width` columns, with the cell at
/// `(row, column)` stored at `row * width + column`.
pub struct Grid {
    pub height: nat,
    pub width: nat,
    pub cells: Seq<Cell>,
}

impl Grid {
    /// The grid holds one cell for each position.
    pub open spec fn wf(self) -> bool {
        self.cells.len() == self.height * self.width
    }

    /// `(row, column)` is a position of the grid.
    pub open spec fn has(self, row: int, column: int) -> bool {
        0 <= row < self.height && 0 <= column < self.width
    }

    /// Where the cell at `(row, column)` is stored.
    pub open spec fn index(self, row: int, column: int) -> int {
        row * self.width + column
    }

    /// The cell at `(row, column)`.
    pub open spec fn at(self, row: int, column: int) -> Cell {
        self.cells[self.index(row, column)]
    }

    /// The cell that lies `delta_row` rows and `delta_column` columns away
    /// from `(row, column)`, across the edges where the offset leaves the grid.
    pub open spec fn neighbor(self, row: int, column: int, delta_row: int, delta_column: int) -> Cell {
        self.at(wrap(row, delta_row, self.height as int), wrap(column, delta_column, self.width as int))
    }

    /// How many of the eight cells around `(row, column)` are alive.
    pub open spec fn live_neighbors(self, row: int, column: int) -> nat {
        self.neighbor(row, column, -1, -1).value() + self.neighbor(row, column, -1, 0).value()
            + self.neighbor(row, column, -1, 1).value() + self.neighbor(row, column, 0, -1).value()
            + self.neighbor(row, column, 0, 1).value() + self.neighbor(row, column, 1, -1).value()
            + self.neighbor(row, column, 1, 0).value() + self.neighbor(row, column, 1, 1).value()
    }

    /// The state of the cell at `(row, column)` in the next generation.
    pub open spec fn next_cell(self, row: int, column: int) -> Cell {
        rule(self.at(row, column), self.live_neighbors(row, column))
    }

    /// The next generation: every cell follows the rule on this generation.
    pub open spec fn step(self) -> Grid {
        Grid {
            height: self.height,
            width: self.width,
            cells: Seq::new(
                self.cells.len(),
                |i: int| self.next_cell(i / (self.width as int), i % (self.width as int)),
            ),
        }
    }

    /// The generation reached after `n` steps.
    pub open spec fn after(self, n: nat) -> Grid
        decreases n,
    {
        if n == 0 {
            self
        } else {
            self.after((n - 1) as nat).step()
        }
    }

    /// The length of one row of the rendering: a glyph for each cell of the
    /// row and a line feed.
    pub open spec fn line(self) -> int {
        self.width as int + 1
    }

    /// The grid as text: row by row, the glyph of each cell of the row and
    /// then a line feed.
    pub open spec fn rendering(self) -> Seq<char> {
        Seq::new(
            (self.height * self.line()) as nat,
            |i: int|
                if i % self.line() == self.width {
                    '\n'
                } else {
                    self.at(i / self.line(), i % self.line()).glyph()
                },
        )
    }

    /// No cell of the grid is alive.
    pub open spec fn all_dead(self) -> bool {
        forall|i: int| 0 <= i < self.cells.len() ==> self.cells[i] == Cell::Dead
    }
}

} // verus!
