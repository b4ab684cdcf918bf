//! The mathematical model of a grid: its dimensions and its cells as a
//! sequence in row-major order, with the neighbourhood, the generation step
//! and the rendered text defined over them.

use vstd::prelude::*;
use crate::cell::{Cell, next_state};

verus! {

/// A grid of cells as a mathematical value.
///
/// The cell in column `x` of row `y` is `cells[x + y * width]`.
#[verifier::ext_equal]
pub struct Grid {
    pub width: int,
    pub height: int,
    pub cells: Seq<Cell>,
}

/// The state in which the default seeding puts the cell at flat index `i`.
pub open spec fn seed_cell(i: int) -> Cell {
    if i % 2 == 0 || i % 7 == 0 {
        Cell::Alive
    } else {
        Cell::Dead
    }
}

/// The line separator that ends every row of rendered text.
pub const LINE_SEPARATOR: char = '\n';

/// The number of line separators in a text.
pub open spec fn line_count(text: Seq<char>) -> nat {
    text.filter(is_line_separator()).len()
}

/// The predicate that holds of the line separator alone.
pub open spec fn is_line_separator() -> spec_fn(char) -> bool {
    |c: char| c == LINE_SEPARATOR
}

impl Grid {
    /// Both dimensions are positive and there is exactly one cell for every
    /// position.
    pub open spec fn wf(self) -> bool {
        &&& 0 < self.width
        &&& 0 < self.height
        &&& self.cells.len() == self.width * self.height
    }

    /// Whether `(x, y)` is a position of the grid.
    pub open spec fn in_bounds(self, x: int, y: int) -> bool {
        0 <= x < self.width && 0 <= y < self.height
    }

    /// The flat index of the cell in column `x` of row `y`.
    pub open spec fn index(self, x: int, y: int) -> int {
        x + y * self.width
    }

    /// The cell in column `x` of row `y`, for a position of the grid.
    pub open spec fn cell(self, x: int, y: int) -> Cell
        recommends
            self.in_bounds(x, y),
    {
        self.cells[self.index(x, y)]
    }

    /// The cell that the torus has at `(x, y)`: the coordinates wrap around
    /// at the edges, so every pair of integers names a cell.
    pub open spec fn at(self, x: int, y: int) -> Cell {
        self.cell(x % self.width, y % self.height)
    }

    /// The number of live cells among the eight neighbours of `(x, y)` on
    /// the torus.
    pub open spec fn live_neighbors(self, x: int, y: int) -> int {
        self.at(x - 1, y - 1).population() + self.at(x, y - 1).population() + self.at(
            x + 1,
            y - 1,
        ).population() + self.at(x - 1, y).population() + self.at(x + 1, y).population()
            + self.at(x - 1, y + 1).population() + self.at(x, y + 1).population() + self.at(
            x + 1,
            y + 1,
        ).population()
    }

    /// The state of the cell at `(x, y)` in the next generation.
    pub open spec fn next_cell(self, x: int, y: int) -> Cell {
        next_state(self.at(x, y), self.live_neighbors(x, y))
    }

    /// The next generation: every cell is computed from this generation
    /// alone.
    pub open spec fn step(self) -> Grid {
        Grid {
            width: self.width,
            height: self.height,
            cells: Seq::new(
                self.cells.len(),
                |i: int| self.next_cell(i % self.width, i / self.width),
            ),
        }
    }

    /// The grid after `n` generations.
    pub open spec fn steps(self, n: nat) -> Grid
        decreases n,
    {
        if n == 0 {
            self
        } else {
            self.step().steps((n - 1) as nat)
        }
    }

    /// The text of row `y`: one glyph per cell, then the line separator.
    pub open spec fn row_text(self, y: int) -> Seq<char> {
        Seq::new(self.width as nat, |x: int| self.cell(x, y).spec_glyph()).push(LINE_SEPARATOR)
    }

    /// The text of the first `n` rows.
    pub open spec fn rows_text(self, n: int) -> Seq<char>
        decreases n,
    {
        if n <= 0 {
            Seq::empty()
        } else {
            self.rows_text(n - 1) + self.row_text(n - 1)
        }
    }

    /// The offset within the rendered text of the glyph of the cell in
    /// column `x` of row `y`; with `x` the width, the offset of the line
    /// separator of row `y`.
    pub open spec fn text_offset(self, x: int, y: int) -> int {
        x + y * (self.width + 1)
    }

    /// The text of the whole grid, row by row.
    pub open spec fn rendered(self) -> Seq<char> {
        self.rows_text(self.height)
    }

    /// The grid of the given dimensions in its default seeding.
    pub open spec fn seeded(width: int, height: int) -> Grid {
        Grid { width, height, cells: Seq::new((width * height) as nat, |i: int| seed_cell(i)) }
    }
}

} // verus!
