//! Two classic patterns on the torus: the block, which never changes, and
//! the blinker, which turns by a quarter with every generation.

use vstd::prelude::*;
use crate::arith::{lemma_wrap_step, wrap_next, wrap_prev};
use crate::cell::Cell;
use crate::grid::Grid;
use crate::laws::{lemma_grid_extensionality, lemma_neighborhood, lemma_step_cell, lemma_step_wf};

verus! {

/// Whether the live cells of `g` are exactly the four of the 2 by 2 block
/// whose first cell is at `(x, y)`; the block may reach over an edge.
pub open spec fn is_block(g: Grid, x: int, y: int) -> bool {
    forall|c: int, r: int|
        g.in_bounds(c, r) ==> (#[trigger] g.cell(c, r) == Cell::Alive <==> (c == x || c
            == wrap_next(x, g.width)) && (r == y || r == wrap_next(y, g.height)))
}

/// Whether the live cells of `g` are exactly the three of the horizontal
/// blinker whose middle cell is at `(x, y)`; the blinker may reach over an
/// edge.
pub open spec fn is_row_blinker(g: Grid, x: int, y: int) -> bool {
    forall|c: int, r: int|
        g.in_bounds(c, r) ==> (#[trigger] g.cell(c, r) == Cell::Alive <==> r == y && (c
            == wrap_prev(x, g.width) || c == x || c == wrap_next(x, g.width)))
}

/// Whether the live cells of `g` are exactly the three of the vertical
/// blinker whose middle cell is at `(x, y)`; the blinker may reach over an
/// edge.
pub open spec fn is_column_blinker(g: Grid, x: int, y: int) -> bool {
    forall|c: int, r: int|
        g.in_bounds(c, r) ==> (#[trigger] g.cell(c, r) == Cell::Alive <==> c == x && (r
            == wrap_prev(y, g.height) || r == y || r == wrap_next(y, g.height)))
}

/// The neighbours of a position of the grid are positions of the grid, and
/// the number of live ones among them is the sum over those positions.
proof fn lemma_neighbors_in_bounds(g: Grid, x: int, y: int)
    requires
        g.wf(),
        g.in_bounds(x, y),
    ensures
        g.at(x, y) == g.cell(x, y),
        g.in_bounds(wrap_prev(x, g.width), wrap_prev(y, g.height)),
        g.in_bounds(wrap_next(x, g.width), wrap_next(y, g.height)),
        g.live_neighbors(x, y) == ({
            let west = wrap_prev(x, g.width);
            let east = wrap_next(x, g.width);
            let north = wrap_prev(y, g.height);
            let south = wrap_next(y, g.height);
            g.cell(west, north).population() + g.cell(x, north).population() + g.cell(
                east,
                north,
            ).population() + g.cell(west, y).population() + g.cell(east, y).population()
                + g.cell(west, south).population() + g.cell(x, south).population() + g.cell(
                east,
                south,
            ).population()
        }),
{
    lemma_neighborhood(g, x, y);
    lemma_wrap_step(x, g.width);
    lemma_wrap_step(y, g.height);
}

/// A 2 by 2 block is a still life: on a grid of at least 3 columns and 3
/// rows, a grid whose only live cells are those of a block is its own next
/// generation.  (On a grid of two columns or two rows the block is its own
/// neighbour around the torus, and does not last.)
pub proof fn lemma_block_is_still(g: Grid, x: int, y: int)
    requires
        g.wf(),
        g.width >= 3,
        g.height >= 3,
        g.in_bounds(x, y),
        is_block(g, x, y),
    ensures
        g.step() == g,
{
    assert forall|c: int, r: int| g.in_bounds(c, r) implies g.step().cell(c, r) == g.cell(
        c,
        r,
    ) by {
        lemma_step_cell(g, c, r);
        lemma_neighbors_in_bounds(g, c, r);
    }
    lemma_step_wf(g);
    lemma_grid_extensionality(g.step(), g);
}

/// A 2 by 2 block is unchanged by any number of generations, on a grid of
/// at least 3 columns and 3 rows on which no other cell is alive.
pub proof fn lemma_block_is_stable(g: Grid, x: int, y: int, n: nat)
    requires
        g.wf(),
        g.width >= 3,
        g.height >= 3,
        g.in_bounds(x, y),
        is_block(g, x, y),
    ensures
        g.steps(n) == g,
    decreases n,
{
    if n > 0 {
        lemma_block_is_still(g, x, y);
        lemma_block_is_stable(g, x, y, (n - 1) as nat);
    }
}

/// How many of the coordinates `c - 1`, `c` and `c + 1` of a torus of
/// circumference `n` are among `m - 1`, `m` and `m + 1`.
spec fn span_overlap(c: int, m: int, n: int) -> int {
    let hit = |k: int| k == wrap_prev(m, n) || k == m || k == wrap_next(m, n);
    (if hit(wrap_prev(c, n)) {
        1int
    } else {
        0int
    }) + (if hit(c) {
        1int
    } else {
        0int
    }) + (if hit(wrap_next(c, n)) {
        1int
    } else {
        0int
    })
}

/// How many of the coordinates `c - 1`, `c` and `c + 1` of a torus of
/// circumference `n` are `m`.
spec fn span_hits(c: int, m: int, n: int) -> int {
    (if wrap_prev(c, n) == m {
        1int
    } else {
        0int
    }) + (if c == m {
        1int
    } else {
        0int
    }) + (if wrap_next(c, n) == m {
        1int
    } else {
        0int
    })
}

/// The live neighbours of a cell beside a horizontal blinker: as many as
/// the blinker has cells in the three columns around the cell, if its row
/// is one of the three around the cell, less the cell itself.
proof fn lemma_row_blinker_neighbors(g: Grid, x: int, y: int, c: int, r: int)
    requires
        g.wf(),
        g.width >= 3,
        g.height >= 3,
        g.in_bounds(x, y),
        g.in_bounds(c, r),
        is_row_blinker(g, x, y),
    ensures
        g.live_neighbors(c, r) + g.cell(c, r).population() == (if span_hits(r, y, g.height)
            == 1 {
            span_overlap(c, x, g.width)
        } else {
            0
        }),
        0 <= span_overlap(c, x, g.width) <= 3,
        0 <= span_hits(r, y, g.height) <= 1,
{
    lemma_neighbors_in_bounds(g, c, r);
    let west = wrap_prev(c, g.width);
    let east = wrap_next(c, g.width);
    let north = wrap_prev(r, g.height);
    let south = wrap_next(r, g.height);
    let above = g.cell(west, north).population() + g.cell(c, north).population() + g.cell(
        east,
        north,
    ).population();
    let beside = g.cell(west, r).population() + g.cell(c, r).population() + g.cell(
        east,
        r,
    ).population();
    let below = g.cell(west, south).population() + g.cell(c, south).population() + g.cell(
        east,
        south,
    ).population();
    let overlap = span_overlap(c, x, g.width);
    assert(above == if north == y {
        overlap
    } else {
        0
    });
    assert(beside == if r == y {
        overlap
    } else {
        0
    });
    assert(below == if south == y {
        overlap
    } else {
        0
    });
    assert(g.live_neighbors(c, r) == above + beside + below - g.cell(c, r).population());
}

/// The live neighbours of a cell beside a vertical blinker: as many as the
/// blinker has cells in the three rows around the cell, if its column is
/// one of the three around the cell, less the cell itself.
proof fn lemma_column_blinker_neighbors(g: Grid, x: int, y: int, c: int, r: int)
    requires
        g.wf(),
        g.width >= 3,
        g.height >= 3,
        g.in_bounds(x, y),
        g.in_bounds(c, r),
        is_column_blinker(g, x, y),
    ensures
        g.live_neighbors(c, r) + g.cell(c, r).population() == (if span_hits(c, x, g.width)
            == 1 {
            span_overlap(r, y, g.height)
        } else {
            0
        }),
        0 <= span_hits(c, x, g.width) <= 1,
        0 <= span_overlap(r, y, g.height) <= 3,
{
    lemma_neighbors_in_bounds(g, c, r);
    let west = wrap_prev(c, g.width);
    let east = wrap_next(c, g.width);
    let north = wrap_prev(r, g.height);
    let south = wrap_next(r, g.height);
    let left = g.cell(west, north).population() + g.cell(west, r).population() + g.cell(
        west,
        south,
    ).population();
    let middle = g.cell(c, north).population() + g.cell(c, r).population() + g.cell(
        c,
        south,
    ).population();
    let right = g.cell(east, north).population() + g.cell(east, r).population() + g.cell(
        east,
        south,
    ).population();
    let overlap = span_overlap(r, y, g.height);
    assert(left == if west == x {
        overlap
    } else {
        0
    });
    assert(middle == if c == x {
        overlap
    } else {
        0
    });
    assert(right == if east == x {
        overlap
    } else {
        0
    });
    assert(g.live_neighbors(c, r) == left + middle + right - g.cell(c, r).population());
}

/// One generation turns a horizontal blinker into the vertical blinker
/// with the same middle cell, on a grid of at least 4 columns and 3 rows.
pub proof fn lemma_row_blinker_turns(g: Grid, x: int, y: int)
    requires
        g.wf(),
        g.width >= 4,
        g.height >= 3,
        g.in_bounds(x, y),
        is_row_blinker(g, x, y),
    ensures
        g.step().wf(),
        g.step().width == g.width,
        g.step().height == g.height,
        is_column_blinker(g.step(), x, y),
{
    lemma_step_wf(g);
    assert forall|c: int, r: int| g.step().in_bounds(c, r) implies (#[trigger] g.step().cell(
        c,
        r,
    ) == Cell::Alive <==> c == x && (r == wrap_prev(y, g.height) || r == y || r == wrap_next(
        y,
        g.height,
    ))) by {
        lemma_step_cell(g, c, r);
        lemma_neighbors_in_bounds(g, c, r);
        lemma_row_blinker_neighbors(g, x, y, c, r);
    }
}

/// One generation turns a vertical blinker into the horizontal blinker
/// with the same middle cell, on a grid of at least 3 columns and 4 rows.
pub proof fn lemma_column_blinker_turns(g: Grid, x: int, y: int)
    requires
        g.wf(),
        g.width >= 3,
        g.height >= 4,
        g.in_bounds(x, y),
        is_column_blinker(g, x, y),
    ensures
        g.step().wf(),
        g.step().width == g.width,
        g.step().height == g.height,
        is_row_blinker(g.step(), x, y),
{
    lemma_step_wf(g);
    assert forall|c: int, r: int| g.step().in_bounds(c, r) implies (#[trigger] g.step().cell(
        c,
        r,
    ) == Cell::Alive <==> r == y && (c == wrap_prev(x, g.width) || c == x || c == wrap_next(
        x,
        g.width,
    ))) by {
        lemma_step_cell(g, c, r);
        lemma_neighbors_in_bounds(g, c, r);
        lemma_column_blinker_neighbors(g, x, y, c, r);
    }
}

/// A blinker oscillates with period 2: on a grid of at least 4 columns and
/// 4 rows, a horizontal blinker is vertical after one generation and is the
/// grid it was after two.
pub proof fn lemma_blinker_oscillates(g: Grid, x: int, y: int)
    requires
        g.wf(),
        g.width >= 4,
        g.height >= 4,
        g.in_bounds(x, y),
        is_row_blinker(g, x, y),
    ensures
        is_column_blinker(g.steps(1), x, y),
        g.steps(1) != g,
        g.steps(2) == g,
{
    reveal_with_fuel(Grid::steps, 3);
    lemma_row_blinker_turns(g, x, y);
    lemma_column_blinker_turns(g.step(), x, y);
    let twice = g.step().step();
    assert forall|c: int, r: int| g.in_bounds(c, r) implies twice.cell(c, r) == g.cell(c, r) by {
        assert(twice.cell(c, r) == Cell::Alive <==> g.cell(c, r) == Cell::Alive);
    }
    lemma_grid_extensionality(twice, g);
    assert(g.cell(wrap_next(x, g.width), y) == Cell::Alive);
    assert(g.step().cell(wrap_next(x, g.width), y) == Cell::Dead);
}

/// A blinker has period 2 for ever: on a grid of at least 4 columns and 4
/// rows, a horizontal blinker is the grid it was after every even number of
/// generations, and the vertical blinker of its first generation after
/// every odd number.
pub proof fn lemma_blinker_period(g: Grid, x: int, y: int, n: nat)
    requires
        g.wf(),
        g.width >= 4,
        g.height >= 4,
        g.in_bounds(x, y),
        is_row_blinker(g, x, y),
    ensures
        n % 2 == 0 ==> g.steps(n) == g,
        n % 2 == 1 ==> g.steps(n) == g.step(),
    decreases n,
{
    reveal_with_fuel(Grid::steps, 3);
    if n >= 2 {
        lemma_blinker_oscillates(g, x, y);
        assert(g.steps(n) == g.step().step().steps((n - 2) as nat));
        lemma_blinker_period(g, x, y, (n - 2) as nat);
    }
}

} // verus!
