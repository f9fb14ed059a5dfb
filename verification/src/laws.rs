//! What holds of every grid: the shape of the generations, the bounds of the
//! neighbor count, the edges of the torus and the fate of single cells.

use vstd::prelude::*;
use vstd::arithmetic::div_mod::{
    lemma_fundamental_div_mod,
    lemma_fundamental_div_mod_converse_div,
    lemma_fundamental_div_mod_converse_mod,
    lemma_mod_bound,
};
use crate::cell::{rule, Cell};
use crate::grid::{wrap, Grid};

verus! {

/// A position of a well-formed grid is stored inside its cells.
pub proof fn lemma_index_in_range(grid: Grid, row: int, column: int)
    requires
        grid.wf(),
        grid.has(row, column),
    ensures
        0 <= grid.index(row, column) < grid.cells.len(),
        grid.index(row, column) == (grid.width as int) * row + column,
        0 <= (grid.width as int) * row,
{
    let w = grid.width as int;
    let h = grid.height as int;
    assert(0 <= row * w && row * w + w <= h * w) by (nonlinear_arith)
        requires
            0 <= row < h,
            0 <= w,
    ;
    assert(w * row == row * w) by (nonlinear_arith);
}

/// The row and the column of a position are read back from where it is stored.
pub proof fn lemma_position_of_index(grid: Grid, row: int, column: int)
    requires
        grid.has(row, column),
    ensures
        grid.index(row, column) / (grid.width as int) == row,
        grid.index(row, column) % (grid.width as int) == column,
{
    let w = grid.width as int;
    lemma_fundamental_div_mod_converse_div(
        row * w + column,
        w,
        row,
        column,
    );
    lemma_fundamental_div_mod_converse_mod(
        row * w + column,
        w,
        row,
        column,
    );
}

/// On a ring of `n` positions the offset 0 stays in place, the offset -1
/// leads from 0 to `n - 1` and else one position down, and the offset 1 leads
/// from `n - 1` to 0 and else one position up.
pub proof fn lemma_wrap(i: int, n: int)
    requires
        0 <= i < n,
    ensures
        wrap(i, 0, n) == i,
        wrap(i, -1, n) == if i == 0 { n - 1 } else { i - 1 },
        wrap(i, 1, n) == if i == n - 1 { 0 } else { i + 1 },
{
    lemma_fundamental_div_mod_converse_mod(i + n, n, 1, i);
    if i == 0 {
        lemma_fundamental_div_mod_converse_mod(i + n - 1, n, 0, n - 1);
    } else {
        lemma_fundamental_div_mod_converse_mod(i + n - 1, n, 1, i - 1);
    }
    if i == n - 1 {
        lemma_fundamental_div_mod_converse_mod(i + n + 1, n, 2, 0);
    } else {
        lemma_fundamental_div_mod_converse_mod(i + n + 1, n, 1, i + 1);
    }
}

/// A step away and the opposite step lead back: if one cell is the neighbor
/// of another in some direction, the other is its neighbor in the opposite
/// direction.
pub proof fn lemma_wrap_back(i: int, delta: int, n: int)
    requires
        0 <= i < n,
        -1 <= delta <= 1,
    ensures
        0 <= wrap(i, delta, n) < n,
        wrap(wrap(i, delta, n), -delta, n) == i,
{
    lemma_wrap(i, n);
    lemma_wrap(wrap(i, delta, n), n);
}

/// Every neighbor of a position of the grid is a position of the grid.
pub proof fn lemma_neighbor_in_grid(grid: Grid, row: int, column: int, delta_row: int, delta_column: int)
    requires
        grid.has(row, column),
        -1 <= delta_row <= 1,
        -1 <= delta_column <= 1,
    ensures
        grid.has(wrap(row, delta_row, grid.height as int), wrap(column, delta_column, grid.width as int)),
{
    lemma_wrap_back(row, delta_row, grid.height as int);
    lemma_wrap_back(column, delta_column, grid.width as int);
}

/// The four corners see each other across the edges: the cell at the
/// top left has the cell at the bottom right as its upper left neighbor, and
/// so on round the grid.
pub proof fn lemma_corners_wrap(grid: Grid)
    requires
        grid.height > 0,
        grid.width > 0,
    ensures
        grid.neighbor(0, 0, -1, -1) == grid.at(grid.height - 1, grid.width - 1),
        grid.neighbor(0, grid.width - 1, -1, 1) == grid.at(grid.height - 1, 0),
        grid.neighbor(grid.height - 1, 0, 1, -1) == grid.at(0, grid.width - 1),
        grid.neighbor(grid.height - 1, grid.width - 1, 1, 1) == grid.at(0, 0),
        grid.at(grid.height - 1, grid.width - 1) == Cell::Alive ==> grid.live_neighbors(0, 0) >= 1,
        grid.at(grid.height - 1, 0) == Cell::Alive ==> grid.live_neighbors(0, grid.width - 1) >= 1,
        grid.at(0, grid.width - 1) == Cell::Alive ==> grid.live_neighbors(grid.height - 1, 0) >= 1,
        grid.at(0, 0) == Cell::Alive ==> grid.live_neighbors(
            grid.height - 1,
            grid.width - 1,
        ) >= 1,
{
    lemma_wrap(0, grid.height as int);
    lemma_wrap(grid.height - 1, grid.height as int);
    lemma_wrap(0, grid.width as int);
    lemma_wrap(grid.width - 1, grid.width as int);
}

/// The edges are joined: above the first row lies the last row, below the
/// last row the first, left of the first column the last column and right of
/// the last column the first.
pub proof fn lemma_edges_wrap(grid: Grid, row: int, column: int)
    requires
        grid.has(row, column),
    ensures
        grid.neighbor(0, column, -1, 0) == grid.at(grid.height - 1, column),
        grid.neighbor(grid.height - 1, column, 1, 0) == grid.at(0, column),
        grid.neighbor(row, 0, 0, -1) == grid.at(row, grid.width - 1),
        grid.neighbor(row, grid.width - 1, 0, 1) == grid.at(row, 0),
{
    lemma_wrap(0, grid.height as int);
    lemma_wrap(grid.height - 1, grid.height as int);
    lemma_wrap(0, grid.width as int);
    lemma_wrap(grid.width - 1, grid.width as int);
    lemma_wrap(row, grid.height as int);
    lemma_wrap(column, grid.width as int);
}

/// A cell never has more than eight live neighbors.
pub proof fn lemma_live_neighbors_at_most_eight(grid: Grid, row: int, column: int)
    ensures
        grid.live_neighbors(row, column) <= 8,
{
}

/// The rule in one sentence: the next state is alive exactly when the cell
/// has three live neighbors, or is alive and has two.
pub proof fn lemma_rule(cell: Cell, live_neighbors: nat)
    ensures
        rule(cell, live_neighbors) == Cell::Alive <==> live_neighbors == 3 || (cell == Cell::Alive
            && live_neighbors == 2),
        rule(cell, live_neighbors) == Cell::Dead <==> !(live_neighbors == 3 || (cell == Cell::Alive
            && live_neighbors == 2)),
{
}

/// The next state of a cell depends on nothing but its state and the number
/// of its live neighbors: two cells that agree in both, wherever they lie
/// and in whatever grids, have the same next state.
pub proof fn lemma_next_cell_by_state_and_count(
    first: Grid,
    first_row: int,
    first_column: int,
    second: Grid,
    second_row: int,
    second_column: int,
)
    requires
        first.at(first_row, first_column) == second.at(second_row, second_column),
        first.live_neighbors(first_row, first_column) == second.live_neighbors(
            second_row,
            second_column,
        ),
    ensures
        first.next_cell(first_row, first_column) == second.next_cell(second_row, second_column),
{
}

/// A step keeps the shape of the grid.
pub proof fn lemma_step_keeps_shape(grid: Grid)
    ensures
        grid.step().height == grid.height,
        grid.step().width == grid.width,
        grid.step().cells.len() == grid.cells.len(),
        grid.wf() ==> grid.step().wf(),
{
}

/// Every generation has the shape of the first: the same height and width,
/// and one cell for each position.
pub proof fn lemma_generations_keep_shape(grid: Grid, n: nat)
    requires
        grid.wf(),
    ensures
        grid.after(n).wf(),
        grid.after(n).height == grid.height,
        grid.after(n).width == grid.width,
        grid.after(n).cells.len() == grid.height * grid.width,
    decreases n,
{
    if n > 0 {
        lemma_generations_keep_shape(grid, (n - 1) as nat);
        lemma_step_keeps_shape(grid.after((n - 1) as nat));
    }
}

/// The cell at a position of the next generation is what the rule makes of
/// the cell at that position and of its neighbors in this generation: no
/// cell of the next generation is read to compute another.
pub proof fn lemma_step_at(grid: Grid, row: int, column: int)
    requires
        grid.wf(),
        grid.has(row, column),
    ensures
        grid.step().at(row, column) == grid.next_cell(row, column),
        grid.step().at(row, column) == rule(grid.at(row, column), grid.live_neighbors(row, column)),
{
    lemma_index_in_range(grid, row, column);
    lemma_position_of_index(grid, row, column);
}

/// A grid without rows or without columns has no cells, and a step leaves it
/// as it is.
pub proof fn lemma_empty_grid_is_fixed(grid: Grid)
    requires
        grid.wf(),
        grid.height == 0 || grid.width == 0,
    ensures
        grid.cells.len() == 0,
        grid.step() == grid,
{
    assert(grid.height * grid.width == 0) by (nonlinear_arith)
        requires
            grid.height == 0 || grid.width == 0,
    ;
    assert(grid.step().cells =~= grid.cells);
}

/// A grid without live cells stays as it is, for any number of generations.
pub proof fn lemma_all_dead_is_stable(grid: Grid, n: nat)
    requires
        grid.wf(),
        grid.all_dead(),
    ensures
        grid.step() == grid,
        grid.after(n) == grid,
    decreases n,
{
    assert forall|i: int| 0 <= i < grid.cells.len() implies grid.step().cells[i]
        == grid.cells[i] by {
        let w = grid.width as int;
        lemma_position_in_grid(grid, i);
        let row = i / w;
        let column = i % w;
        assert forall|delta_row: int, delta_column: int|
            -1 <= delta_row <= 1 && -1 <= delta_column <= 1 implies #[trigger] grid.neighbor(
            row,
            column,
            delta_row,
            delta_column,
        ) == Cell::Dead by {
            lemma_neighbor_in_grid(grid, row, column, delta_row, delta_column);
            lemma_index_in_range(
                grid,
                wrap(row, delta_row, grid.height as int),
                wrap(column, delta_column, w),
            );
        }
    }
    assert(grid.step().cells =~= grid.cells);
    if n > 0 {
        lemma_all_dead_is_stable(grid, (n - 1) as nat);
    }
}

/// A place among the cells of a well-formed grid is the place of a position.
pub proof fn lemma_position_in_grid(grid: Grid, i: int)
    requires
        grid.wf(),
        0 <= i < grid.cells.len(),
    ensures
        grid.has(i / (grid.width as int), i % (grid.width as int)),
        grid.index(i / (grid.width as int), i % (grid.width as int)) == i,
{
    let w = grid.width as int;
    let h = grid.height as int;
    assert(w > 0) by (nonlinear_arith)
        requires
            0 <= i < h * w,
            0 <= w,
    ;
    lemma_fundamental_div_mod(i, w);
    lemma_mod_bound(i, w);
    let q = i / w;
    assert(0 <= q < h) by (nonlinear_arith)
        requires
            0 <= i < h * w,
            i == w * q + i % w,
            0 <= i % w < w,
    ;
    assert(w * q == q * w) by (nonlinear_arith);
}

/// A live cell with fewer than two live neighbors is dead in the next
/// generation; so a live cell with none dies.
pub proof fn lemma_lonely_cell_dies(grid: Grid, row: int, column: int)
    requires
        grid.wf(),
        grid.has(row, column),
        grid.at(row, column) == Cell::Alive,
        grid.live_neighbors(row, column) < 2,
    ensures
        grid.step().at(row, column) == Cell::Dead,
{
    lemma_step_at(grid, row, column);
}

/// A dead cell with exactly three live neighbors is alive in the next
/// generation, whichever three they are.
pub proof fn lemma_birth(grid: Grid, row: int, column: int)
    requires
        grid.wf(),
        grid.has(row, column),
        grid.at(row, column) == Cell::Dead,
        grid.live_neighbors(row, column) == 3,
    ensures
        grid.step().at(row, column) == Cell::Alive,
{
    lemma_step_at(grid, row, column);
}

/// On a grid of three rows and three columns the neighbors of the cell in
/// the middle are the eight other cells. So if the middle cell is dead and
/// exactly three of the others are alive, whichever they are, the middle cell
/// is alive in the next generation.
pub proof fn lemma_birth_in_the_middle(grid: Grid)
    requires
        grid.wf(),
        grid.height == 3,
        grid.width == 3,
    ensures
        grid.live_neighbors(1, 1) == grid.cells[0].value() + grid.cells[1].value()
            + grid.cells[2].value() + grid.cells[3].value() + grid.cells[5].value()
            + grid.cells[6].value() + grid.cells[7].value() + grid.cells[8].value(),
        grid.cells[4] == Cell::Dead && grid.live_neighbors(1, 1) == 3 ==> grid.step().cells[4]
            == Cell::Alive,
{
    lemma_wrap(1, 3);
    lemma_step_at(grid, 1, 1);
}

} // verus!
