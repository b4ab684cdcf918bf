//! The executable engine: a grid held in memory that is created, advanced
//! one generation at a time and rendered as text.

use vstd::prelude::*;
use vstd::string::StringExecFns;
use crate::arith::{lemma_index_coords, lemma_index_in_range, lemma_wrap_step};
use crate::laws::lemma_neighborhood;
use crate::cell::Cell;
use crate::grid::{Grid, seed_cell};

verus! {

/// Why a grid could not be constructed.
#[derive(Clone, Copy, Debug, PartialEq, Eq, Structural)]
pub enum GridError {
    /// The width or the height is zero.
    ZeroDimension,
    /// The number of cells does not fit the 32-bit index of a cell.
    TooLarge,
    /// The number of cells supplied is not the width times the height.
    LengthMismatch,
}

/// Whether a grid of these dimensions can be constructed: both are positive
/// and every flat index fits in 32 bits.
pub open spec fn valid_dimensions(width: int, height: int) -> bool {
    0 < width && 0 < height && width * height <= u32::MAX
}

/// A grid of cells on a torus, of a size fixed at construction.
pub struct Universe {
    width: u32,
    height: u32,
    cells: Vec<Cell>,
}

impl View for Universe {
    type V = Grid;

    closed spec fn view(&self) -> Grid {
        Grid { width: self.width as int, height: self.height as int, cells: self.cells@ }
    }
}

impl Universe {
    #[verifier::type_invariant]
    spec fn inv(&self) -> bool {
        self@.wf() && valid_dimensions(self.width as int, self.height as int)
    }

    /// Tells whether a grid of the given dimensions can be constructed, and
    /// why not where it cannot.
    fn check_dimensions(width: u32, height: u32) -> (res: Result<(), GridError>)
        ensures
            res is Ok <==> valid_dimensions(width as int, height as int),
            res == Err::<(), GridError>(GridError::ZeroDimension) <==> (width == 0 || height
                == 0),
            res == Err::<(), GridError>(GridError::TooLarge) <==> (width > 0 && height > 0
                && width * height > u32::MAX),
    {
        if width == 0 || height == 0 {
            return Err(GridError::ZeroDimension);
        }
        match width.checked_mul(height) {
            Some(_) => Ok(()),
            None => Err(GridError::TooLarge),
        }
    }

    /// The grid of the given dimensions in its default seeding.
    fn seeded(width: u32, height: u32) -> (u: Universe)
        requires
            valid_dimensions(width as int, height as int),
        ensures
            u@ == Grid::seeded(width as int, height as int),
            u@.wf(),
    {
        let count: u32 = width * height;
        let mut cells: Vec<Cell> = Vec::new();
        let mut i: u32 = 0;
        while i < count
            invariant
                i <= count,
                cells@.len() == i,
                forall|j: int| 0 <= j < i ==> cells@[j] == seed_cell(j),
            decreases count - i,
        {
            let cell = if i % 2 == 0 || i % 7 == 0 {
                Cell::Alive
            } else {
                Cell::Dead
            };
            cells.push(cell);
            i = i + 1;
        }
        Universe { width, height, cells }
    }

    /// Creates a grid of the given dimensions in its default seeding: the
    /// cell at flat index `i` is alive if and only if `i` is a multiple of 2
    /// or of 7.
    ///
    /// Fails if a dimension is zero or if the number of cells does not fit
    /// the 32-bit index of a cell.
    pub fn create(width: u32, height: u32) -> (res: Result<Universe, GridError>)
        ensures
            res is Ok <==> valid_dimensions(width as int, height as int),
            res matches Ok(u) ==> {
                &&& u@.wf()
                &&& u@.width == width
                &&& u@.height == height
                &&& u@.cells.len() == width * height
                &&& forall|i: int| 0 <= i < width * height ==> u@.cells[i] == seed_cell(i)
                &&& u@ == Grid::seeded(width as int, height as int)
            },
            res matches Err(e) ==> e == (if width == 0 || height == 0 {
                GridError::ZeroDimension
            } else {
                GridError::TooLarge
            }),
    {
        match Self::check_dimensions(width, height) {
            Ok(()) => Ok(Self::seeded(width, height)),
            Err(e) => Err(e),
        }
    }

    /// Creates a grid of the given dimensions from its cells in row-major
    /// order.
    ///
    /// Fails if a dimension is zero, if the number of cells does not fit the
    /// 32-bit index of a cell, or if `cells` does not hold exactly one cell
    /// for every position.
    pub fn from_cells(width: u32, height: u32, cells: Vec<Cell>) -> (res: Result<
        Universe,
        GridError,
    >)
        ensures
            res is Ok <==> valid_dimensions(width as int, height as int) && cells@.len() == width
                * height,
            res matches Ok(u) ==> u@ == (Grid {
                width: width as int,
                height: height as int,
                cells: cells@,
            }) && u@.wf(),
            res matches Err(e) ==> e == (if width == 0 || height == 0 {
                GridError::ZeroDimension
            } else if width * height > u32::MAX {
                GridError::TooLarge
            } else {
                GridError::LengthMismatch
            }),
    {
        match Self::check_dimensions(width, height) {
            Ok(()) => {
                let count: u32 = width * height;
                if cells.len() == count as usize {
                    Ok(Universe { width, height, cells })
                } else {
                    Err(GridError::LengthMismatch)
                }
            },
            Err(e) => Err(e),
        }
    }

    /// Creates the 64 by 64 grid in its default seeding.
    pub fn new() -> (u: Universe)
        ensures
            u@ == Grid::seeded(64, 64),
            u@.wf(),
    {
        Self::seeded(64, 64)
    }

    /// The number of columns.
    pub fn width(&self) -> (w: u32)
        ensures
            w == self@.width,
            self@.wf(),
    {
        proof {
            use_type_invariant(self);
        }
        self.width
    }

    /// The number of rows.
    pub fn height(&self) -> (h: u32)
        ensures
            h == self@.height,
            self@.wf(),
    {
        proof {
            use_type_invariant(self);
        }
        self.height
    }

    /// The cells in row-major order.
    pub fn cells(&self) -> (cells: &[Cell])
        ensures
            cells@ == self@.cells,
            self@.wf(),
    {
        proof {
            use_type_invariant(self);
        }
        self.cells.as_slice()
    }

    /// The cell in column `x` of row `y`, if the grid has that position.
    pub fn get(&self, x: u32, y: u32) -> (cell: Option<Cell>)
        ensures
            cell == (if self@.in_bounds(x as int, y as int) {
                Some(self@.cell(x as int, y as int))
            } else {
                None
            }),
            self@.wf(),
    {
        proof {
            use_type_invariant(self);
        }
        if x < self.width && y < self.height {
            let idx: usize = self.get_index(x, y);
            Some(self.cells[idx])
        } else {
            None
        }
    }

    /// The flat index of the cell in column `x` of row `y`.
    fn get_index(&self, x: u32, y: u32) -> (idx: usize)
        requires
            self@.in_bounds(x as int, y as int),
        ensures
            idx == self@.index(x as int, y as int),
            idx < self@.cells.len(),
    {
        proof {
            use_type_invariant(self);
            lemma_index_in_range(self.width as int, self.height as int, x as int, y as int);
        }
        (x + y * self.width) as usize
    }

    /// 1 if the cell in column `x` of row `y` is alive, else 0.
    fn population_at(&self, x: u32, y: u32) -> (n: u8)
        requires
            self@.in_bounds(x as int, y as int),
        ensures
            n == self@.cell(x as int, y as int).population(),
    {
        let idx: usize = self.get_index(x, y);
        match self.cells[idx] {
            Cell::Alive => 1,
            Cell::Dead => 0,
        }
    }

    /// Counts the live cells among the eight neighbours of `(x, y)`.
    ///
    /// The grid is a torus: the coordinates and those of the neighbours wrap
    /// around at the edges.
    pub fn live_neighbor_count(&self, x: u32, y: u32) -> (count: u8)
        ensures
            count == self@.live_neighbors(x as int, y as int),
            self@.wf(),
    {
        proof {
            use_type_invariant(self);
        }
        let col: u32 = x % self.width;
        let row: u32 = y % self.height;
        let west: u32 = if col == 0 {
            self.width - 1
        } else {
            col - 1
        };
        let east: u32 = if col == self.width - 1 {
            0
        } else {
            col + 1
        };
        let north: u32 = if row == 0 {
            self.height - 1
        } else {
            row - 1
        };
        let south: u32 = if row == self.height - 1 {
            0
        } else {
            row + 1
        };
        proof {
            lemma_neighborhood(self@, x as int, y as int);
        }
        let above: u8 = self.population_at(west, north) + self.population_at(col, north)
            + self.population_at(east, north);
        let beside: u8 = self.population_at(west, row) + self.population_at(east, row);
        let below: u8 = self.population_at(west, south) + self.population_at(col, south)
            + self.population_at(east, south);
        above + beside + below
    }

    /// Advances the grid by one generation.
    ///
    /// Every cell of the next generation is computed from the current one:
    /// the new cells are gathered in a buffer of their own, which replaces
    /// the current cells only when all of them are known.
    pub fn tick(&mut self)
        ensures
            final(self)@ == old(self)@.step(),
            final(self)@.wf(),
    {
        proof {
            use_type_invariant(&*self);
        }
        let ghost g = self@;
        let width: u32 = self.width;
        let height: u32 = self.height;
        let mut next_cells: Vec<Cell> = self.cells.clone();
        let mut y: u32 = 0;
        while y < height
            invariant
                self@ == g,
                g.wf(),
                valid_dimensions(g.width, g.height),
                width == g.width,
                height == g.height,
                y <= height,
                next_cells@.len() == g.cells.len(),
                forall|i: int|
                    0 <= i < y * width ==> next_cells@[i] == g.next_cell(i % g.width, i / g.width),
            decreases height - y,
        {
            let mut x: u32 = 0;
            while x < width
                invariant
                    self@ == g,
                    g.wf(),
                    valid_dimensions(g.width, g.height),
                    width == g.width,
                    height == g.height,
                    y < height,
                    x <= width,
                    next_cells@.len() == g.cells.len(),
                    forall|i: int|
                        0 <= i < x + y * width ==> next_cells@[i] == g.next_cell(
                            i % g.width,
                            i / g.width,
                        ),
                decreases width - x,
            {
                let idx: usize = self.get_index(x, y);
                let cell: Cell = self.cells[idx];
                let neighbor_count: u8 = self.live_neighbor_count(x, y);
                let next_cell: Cell = cell.next(neighbor_count);
                proof {
                    lemma_index_coords(g.width, x as int, y as int);
                    lemma_wrap_step(x as int, g.width);
                    lemma_wrap_step(y as int, g.height);
                    assert(cell == g.at(x as int, y as int));
                    assert(next_cell == g.next_cell(idx as int % g.width, idx as int / g.width));
                }
                next_cells.set(idx, next_cell);
                x = x + 1;
            }
            proof {
                assert((y + 1) * width == width + y * width) by (nonlinear_arith);
            }
            y = y + 1;
        }
        self.cells = next_cells;
    }

    /// Renders the grid as text: one line for every row, from the first to
    /// the last, each made of one glyph per cell and ended by a line
    /// separator.  A live cell is shown as `◼`, a dead one as `◻`.
    pub fn render(&self) -> (text: String)
        ensures
            text@ == self@.rendered(),
            self@.wf(),
    {
        proof {
            use_type_invariant(self);
        }
        let ghost g = self@;
        let mut text: String = String::new();
        let mut y: u32 = 0;
        while y < self.height
            invariant
                self@ == g,
                g.wf(),
                valid_dimensions(g.width, g.height),
                self.width == g.width,
                self.height == g.height,
                y <= self.height,
                text@ == g.rows_text(y as int),
            decreases self.height - y,
        {
            let ghost done = text@;
            let mut x: u32 = 0;
            while x < self.width
                invariant
                    self@ == g,
                    g.wf(),
                    valid_dimensions(g.width, g.height),
                    self.width == g.width,
                    self.height == g.height,
                    y < self.height,
                    x <= self.width,
                    text@ == done + Seq::new(x as nat, |c: int| g.cell(c, y as int).spec_glyph()),
                decreases self.width - x,
            {
                let idx: usize = self.get_index(x, y);
                let cell: Cell = self.cells[idx];
                text.append(cell.symbol());
                x = x + 1;
            }
            proof {
                reveal_strlit("\n");
            }
            text.append("\n");
            y = y + 1;
        }
        text
    }
}

} // verus!
