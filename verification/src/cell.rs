//! The state of a single cell and the rule by which it changes.

use vstd::prelude::*;

verus! {

/// The state of one cell of the grid.
#[derive(Clone, Copy, Debug, PartialEq, Eq, Structural)]
pub enum Cell {
    Dead,
    Alive,
}

/// The glyph that stands for a live cell in rendered text: `◼` (U+25FC).
pub const ALIVE_GLYPH: char = '\u{25FC}';

/// The glyph that stands for a dead cell in rendered text: `◻` (U+25FB).
pub const DEAD_GLYPH: char = '\u{25FB}';

/// The state of a cell in the next generation, given its current state and
/// the number of its live neighbours.
pub open spec fn next_state(cell: Cell, live_neighbors: int) -> Cell {
    match cell {
        Cell::Alive => if live_neighbors < 2 {
            Cell::Dead
        } else if live_neighbors == 2 || live_neighbors == 3 {
            Cell::Alive
        } else {
            Cell::Dead
        },
        Cell::Dead => if live_neighbors == 3 {
            Cell::Alive
        } else {
            Cell::Dead
        },
    }
}

impl Cell {
    /// 1 for a live cell, 0 for a dead one.
    pub open spec fn population(self) -> int {
        if self == Cell::Alive {
            1
        } else {
            0
        }
    }

    /// The glyph that stands for this cell in rendered text.
    pub open spec fn spec_glyph(self) -> char {
        match self {
            Cell::Alive => ALIVE_GLYPH,
            Cell::Dead => DEAD_GLYPH,
        }
    }

    /// The glyph that stands for this cell in rendered text.
    #[verifier::when_used_as_spec(spec_glyph)]
    pub fn glyph(self) -> (c: char)
        ensures
            c == self.spec_glyph(),
    {
        match self {
            Cell::Alive => ALIVE_GLYPH,
            Cell::Dead => DEAD_GLYPH,
        }
    }

    /// The glyph that stands for this cell in rendered text, as a string of
    /// one character.
    pub(crate) fn symbol(self) -> (s: &'static str)
        ensures
            s@ == seq![self.spec_glyph()],
    {
        proof {
            reveal_strlit("\u{25FC}");
            reveal_strlit("\u{25FB}");
        }
        let s: &'static str = match self {
            Cell::Alive => "\u{25FC}",
            Cell::Dead => "\u{25FB}",
        };
        assert(s@ =~= seq![self.spec_glyph()]);
        s
    }

    /// Applies the transition rule: the state of this cell in the next
    /// generation when `live_neighbors` of its eight neighbours are alive.
    pub fn next(self, live_neighbors: u8) -> (next: Cell)
        ensures
            next == next_state(self, live_neighbors as int),
    {
        match self {
            Cell::Alive => if live_neighbors == 2 || live_neighbors == 3 {
                Cell::Alive
            } else {
                Cell::Dead
            },
            Cell::Dead => if live_neighbors == 3 {
                Cell::Alive
            } else {
                Cell::Dead
            },
        }
    }
}

} // verus!
