//! Theorems about the model of the grid.

use vstd::prelude::*;
use crate::arith::{
    lemma_flat_index,
    lemma_index_coords,
    lemma_index_in_range,
    lemma_wrap_shift,
    lemma_wrap_step,
    wrap_next,
    wrap_prev,
};
use crate::cell::{Cell, next_state};
use crate::grid::{Grid, LINE_SEPARATOR, is_line_separator, line_count};

verus! {

/// The neighbourhood is toroidal.
///
/// Every pair of integers names the cell at its coordinates reduced modulo
/// the dimensions, and the eight neighbours of that cell are found by
/// stepping one column and one row to either side, where a step over an
/// edge arrives at the opposite edge: the cell at `(0, 0)` has the cell at
/// `(width - 1, height - 1)` as its diagonal neighbour, and likewise at all
/// four edges and corners.
pub proof fn lemma_neighborhood(g: Grid, x: int, y: int)
    requires
        g.wf(),
    ensures
        g.in_bounds(x % g.width, y % g.height),
        g.at(x, y) == g.cell(x % g.width, y % g.height),
        g.live_neighbors(x, y) == ({
            let c = x % g.width;
            let r = y % g.height;
            let west = wrap_prev(c, g.width);
            let east = wrap_next(c, g.width);
            let north = wrap_prev(r, g.height);
            let south = wrap_next(r, g.height);
            g.cell(west, north).population() + g.cell(c, north).population() + g.cell(
                east,
                north,
            ).population() + g.cell(west, r).population() + g.cell(east, r).population()
                + g.cell(west, south).population() + g.cell(c, south).population() + g.cell(
                east,
                south,
            ).population()
        }),
{
    let c = x % g.width;
    let r = y % g.height;
    lemma_wrap_shift(x, -1, g.width);
    lemma_wrap_shift(x, 1, g.width);
    lemma_wrap_shift(y, -1, g.height);
    lemma_wrap_shift(y, 1, g.height);
    lemma_wrap_step(c, g.width);
    lemma_wrap_step(r, g.height);
}

/// The corners of the grid are adjacent on the torus: the cell at `(0, 0)`
/// has the cell at `(width - 1, height - 1)` as its diagonal neighbour, and
/// so for each of the four corners and the corner opposite to it.
pub proof fn lemma_corners_adjacent(g: Grid)
    requires
        g.wf(),
    ensures
        g.at(-1, -1) == g.cell(g.width - 1, g.height - 1),
        g.at(g.width, -1) == g.cell(0, g.height - 1),
        g.at(-1, g.height) == g.cell(g.width - 1, 0),
        g.at(g.width, g.height) == g.cell(0, 0),
        g.live_neighbors(0, 0) >= g.cell(g.width - 1, g.height - 1).population(),
        g.live_neighbors(g.width - 1, 0) >= g.cell(0, g.height - 1).population(),
        g.live_neighbors(0, g.height - 1) >= g.cell(g.width - 1, 0).population(),
        g.live_neighbors(g.width - 1, g.height - 1) >= g.cell(0, 0).population(),
{
    lemma_wrap_step(0, g.width);
    lemma_wrap_step(0, g.height);
    lemma_wrap_step(g.width - 1, g.width);
    lemma_wrap_step(g.height - 1, g.height);
}

/// Opposite edges of the grid are adjacent on the torus: the cell before
/// the first column of a row is the one in its last column, the cell after
/// the last column is the one in the first, and likewise for the rows of a
/// column.
pub proof fn lemma_edges_adjacent(g: Grid, x: int, y: int)
    requires
        g.wf(),
        g.in_bounds(x, y),
    ensures
        g.at(-1, y) == g.cell(g.width - 1, y),
        g.at(g.width, y) == g.cell(0, y),
        g.at(x, -1) == g.cell(x, g.height - 1),
        g.at(x, g.height) == g.cell(x, 0),
        g.live_neighbors(0, y) >= g.cell(g.width - 1, y).population(),
        g.live_neighbors(g.width - 1, y) >= g.cell(0, y).population(),
        g.live_neighbors(x, 0) >= g.cell(x, g.height - 1).population(),
        g.live_neighbors(x, g.height - 1) >= g.cell(x, 0).population(),
{
    lemma_wrap_step(0, g.width);
    lemma_wrap_step(0, g.height);
    lemma_wrap_step(g.width - 1, g.width);
    lemma_wrap_step(g.height - 1, g.height);
    lemma_wrap_step(x, g.width);
    lemma_wrap_step(y, g.height);
}

/// The number of live neighbours lies between 0 and 8.
pub proof fn lemma_live_neighbors_range(g: Grid, x: int, y: int)
    ensures
        0 <= g.live_neighbors(x, y) <= 8,
{
}

/// The transition rule, case by case.
///
/// A live cell with fewer than two live neighbours dies, one with two or
/// three lives on, one with more than three dies; a dead cell with exactly
/// three live neighbours comes alive, and any other dead cell stays dead.
/// So a cell is alive in the next generation exactly if it has three live
/// neighbours, or is alive and has two.
pub proof fn lemma_rule(cell: Cell, n: int)
    ensures
        cell == Cell::Alive && n < 2 ==> next_state(cell, n) == Cell::Dead,
        cell == Cell::Alive && (n == 2 || n == 3) ==> next_state(cell, n) == Cell::Alive,
        cell == Cell::Alive && n > 3 ==> next_state(cell, n) == Cell::Dead,
        cell == Cell::Dead && n == 3 ==> next_state(cell, n) == Cell::Alive,
        cell == Cell::Dead && n != 3 ==> next_state(cell, n) == Cell::Dead,
        next_state(cell, n) == Cell::Alive <==> n == 3 || (cell == Cell::Alive && n == 2),
{
}

/// A generation step keeps the dimensions of the grid and the number of
/// its cells.
pub proof fn lemma_step_wf(g: Grid)
    requires
        g.wf(),
    ensures
        g.step().wf(),
        g.step().width == g.width,
        g.step().height == g.height,
        g.step().cells.len() == g.cells.len(),
{
}

/// Any number of generation steps keeps the dimensions of the grid and the
/// number of its cells.
pub proof fn lemma_steps_wf(g: Grid, n: nat)
    requires
        g.wf(),
    ensures
        g.steps(n).wf(),
        g.steps(n).width == g.width,
        g.steps(n).height == g.height,
        g.steps(n).cells.len() == g.cells.len(),
    decreases n,
{
    if n > 0 {
        lemma_step_wf(g);
        lemma_steps_wf(g.step(), (n - 1) as nat);
    }
}

/// Generations add up: `m + n` of them are `m` followed by `n`.  With `n`
/// equal to 1 this is the step from one generation to the next.
pub proof fn lemma_steps_add(g: Grid, m: nat, n: nat)
    ensures
        g.steps(m + n) == g.steps(m).steps(n),
    decreases m,
{
    if m > 0 {
        lemma_steps_add(g.step(), (m - 1) as nat, n);
    }
}

/// The cell of the next generation at a position of the grid is given by
/// the transition rule, applied to the cell at that position and to the
/// number of its live neighbours.
pub proof fn lemma_step_cell(g: Grid, x: int, y: int)
    requires
        g.wf(),
        g.in_bounds(x, y),
    ensures
        g.step().in_bounds(x, y),
        g.step().cell(x, y) == next_state(g.cell(x, y), g.live_neighbors(x, y)),
{
    lemma_index_in_range(g.width, g.height, x, y);
    lemma_index_coords(g.width, x, y);
    lemma_wrap_step(x, g.width);
    lemma_wrap_step(y, g.height);
}

/// Two grids of the same dimensions that agree at every position are equal.
pub proof fn lemma_grid_extensionality(a: Grid, b: Grid)
    requires
        a.wf(),
        b.wf(),
        a.width == b.width,
        a.height == b.height,
        forall|x: int, y: int| a.in_bounds(x, y) ==> a.cell(x, y) == b.cell(x, y),
    ensures
        a == b,
{
    assert forall|i: int| 0 <= i < a.cells.len() implies a.cells[i] == b.cells[i] by {
        lemma_flat_index(a.width, a.height, i);
        assert(a.cell(i % a.width, i / a.width) == b.cell(i % a.width, i / a.width));
    }
    assert(a.cells =~= b.cells);
}

/// No cell comes alive in a grid in which no cell is alive: the next
/// generation of an all-dead grid is that grid again.
pub proof fn lemma_dead_grid_stays_dead(g: Grid)
    requires
        g.wf(),
        forall|i: int| 0 <= i < g.cells.len() ==> g.cells[i] == Cell::Dead,
    ensures
        g.step() == g,
        forall|i: int| 0 <= i < g.step().cells.len() ==> g.step().cells[i] == Cell::Dead,
{
    assert forall|x: int, y: int| g.in_bounds(x, y) implies g.step().cell(x, y) == g.cell(
        x,
        y,
    ) by {
        lemma_step_cell(g, x, y);
        lemma_neighborhood(g, x, y);
        lemma_wrap_step(x, g.width);
        lemma_wrap_step(y, g.height);
        let west = wrap_prev(x, g.width);
        let east = wrap_next(x, g.width);
        let north = wrap_prev(y, g.height);
        let south = wrap_next(y, g.height);
        lemma_index_in_range(g.width, g.height, west, north);
        lemma_index_in_range(g.width, g.height, x, north);
        lemma_index_in_range(g.width, g.height, east, north);
        lemma_index_in_range(g.width, g.height, west, y);
        lemma_index_in_range(g.width, g.height, x, y);
        lemma_index_in_range(g.width, g.height, east, y);
        lemma_index_in_range(g.width, g.height, west, south);
        lemma_index_in_range(g.width, g.height, x, south);
        lemma_index_in_range(g.width, g.height, east, south);
    }
    lemma_step_wf(g);
    lemma_grid_extensionality(g.step(), g);
}

/// A text without a line separator has no lines.
proof fn lemma_no_separator(text: Seq<char>)
    requires
        forall|i: int| 0 <= i < text.len() ==> text[i] != LINE_SEPARATOR,
    ensures
        line_count(text) == 0,
    decreases text.len(),
{
    reveal(Seq::filter);
    if text.len() > 0 {
        lemma_no_separator(text.drop_last());
    }
}

/// The text of a row is one glyph for each of its cells, in their order,
/// and then the line separator, which makes it one line.
pub proof fn lemma_row_text(g: Grid, y: int)
    requires
        g.wf(),
    ensures
        g.row_text(y).len() == g.width + 1,
        forall|x: int| 0 <= x < g.width ==> g.row_text(y)[x] == g.cell(x, y).spec_glyph(),
        g.row_text(y)[g.width] == LINE_SEPARATOR,
        line_count(g.row_text(y)) == 1,
{
    let glyphs = Seq::new(g.width as nat, |x: int| g.cell(x, y).spec_glyph());
    lemma_no_separator(glyphs);
    assert(g.row_text(y).drop_last() =~= glyphs);
    reveal(Seq::filter);
}

/// The shape of the text of the first `n` rows.
proof fn lemma_rows_text(g: Grid, n: int)
    requires
        g.wf(),
        0 <= n,
    ensures
        g.rows_text(n).len() == n * (g.width + 1),
        line_count(g.rows_text(n)) == n,
        forall|x: int, y: int|
            0 <= x <= g.width && 0 <= y < n ==> 0 <= #[trigger] g.text_offset(x, y)
                < g.rows_text(n).len(),
        forall|x: int, y: int|
            0 <= x < g.width && 0 <= y < n ==> g.rows_text(n)[#[trigger] g.text_offset(x, y)]
                == g.cell(x, y).spec_glyph(),
        forall|y: int|
            0 <= y < n ==> g.rows_text(n)[#[trigger] g.text_offset(g.width, y)]
                == LINE_SEPARATOR,
    decreases n,
{
    if n == 0 {
        assert(g.rows_text(0) =~= Seq::<char>::empty());
        reveal(Seq::filter);
    } else {
        let before = g.rows_text(n - 1);
        let row = g.row_text(n - 1);
        lemma_rows_text(g, n - 1);
        lemma_row_text(g, n - 1);
        Seq::filter_distributes_over_add(before, row, is_line_separator());
        assert(n * (g.width + 1) == (n - 1) * (g.width + 1) + (g.width + 1)) by (nonlinear_arith);
        assert forall|x: int, y: int| 0 <= x <= g.width && 0 <= y < n implies 0
            <= #[trigger] g.text_offset(x, y) < g.rows_text(n).len() && (y < n - 1
            ==> g.text_offset(x, y) < before.len()) && (y == n - 1 ==> g.text_offset(x, y)
            == before.len() + x) by {
            lemma_index_in_range(g.width + 1, n, x, y);
            if y == n - 1 {
            } else {
                lemma_index_in_range(g.width + 1, n - 1, x, y);
            }
        }
        assert forall|x: int, y: int| 0 <= x < g.width && 0 <= y < n implies g.rows_text(
            n,
        )[#[trigger] g.text_offset(x, y)] == g.cell(x, y).spec_glyph() by {
            let k = g.text_offset(x, y);
            if y == n - 1 {
                assert(g.rows_text(n)[k] == row[x]);
            } else {
                assert(g.rows_text(n)[k] == before[k]);
            }
        }
        assert forall|y: int| 0 <= y < n implies g.rows_text(n)[#[trigger] g.text_offset(
            g.width,
            y,
        )] == LINE_SEPARATOR by {
            let k = g.text_offset(g.width, y);
            if y == n - 1 {
                assert(g.rows_text(n)[k] == row[g.width]);
            } else {
                assert(g.rows_text(n)[k] == before[k]);
            }
        }
    }
}

/// The shape of the rendered text.
///
/// The text has exactly `height` lines.  Every line holds exactly `width`
/// glyphs and then the line separator: the glyph of the cell in column `x`
/// of row `y` stands at offset `x + y * (width + 1)`.  One glyph stands for
/// a live cell and another for a dead one, and neither is the line
/// separator.
pub proof fn lemma_rendered_shape(g: Grid)
    requires
        g.wf(),
    ensures
        g.rendered().len() == g.height * (g.width + 1),
        line_count(g.rendered()) == g.height,
        forall|x: int, y: int|
            0 <= x <= g.width && 0 <= y < g.height ==> 0 <= #[trigger] g.text_offset(x, y)
                < g.rendered().len(),
        forall|x: int, y: int|
            g.in_bounds(x, y) ==> g.rendered()[#[trigger] g.text_offset(x, y)] == g.cell(
                x,
                y,
            ).spec_glyph(),
        forall|y: int|
            0 <= y < g.height ==> g.rendered()[#[trigger] g.text_offset(g.width, y)]
                == LINE_SEPARATOR,
        Cell::Alive.spec_glyph() != Cell::Dead.spec_glyph(),
        forall|c: Cell| #[trigger] c.spec_glyph() != LINE_SEPARATOR,
        forall|c: Cell|
            #[trigger] c.spec_glyph() == Cell::Alive.spec_glyph() || c.spec_glyph()
                == Cell::Dead.spec_glyph(),
{
    lemma_rows_text(g, g.height);
}

} // verus!
