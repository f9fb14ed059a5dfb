//! The executable engine: a grid of cells that advances one generation at a
//! time.

use vstd::prelude::*;
use vstd::string::*;
use vstd::arithmetic::div_mod::{
    lemma_fundamental_div_mod_converse_div,
    lemma_fundamental_div_mod_converse_mod,
    lemma_mod_add_multiples_vanish,
    lemma_mod_bound,
};
use crate::cell::{may_seed, seed, Cell, SEED_DIVISOR_END, SEED_DIVISOR_MIN};
use crate::grid::{wrap, Grid};
use crate::laws::{lemma_index_in_range, lemma_position_of_index};
use crate::random::gen_range;

verus! {

/// A toroidal grid of cells, stored row by row.
pub struct Universe {
    height: u32,
    width: u32,
    cells: Vec<Cell>,
}

impl View for Universe {
    type V = Grid;

    closed spec fn view(&self) -> Grid {
        Grid { height: self.height as nat, width: self.width as nat, cells: self.cells@ }
    }
}

impl Universe {
    #[verifier::type_invariant]
    spec fn shaped(&self) -> bool {
        self.cells@.len() == self.height * self.width
    }

    /// A universe of `height` rows and `width` columns with randomly seeded
    /// cells: for each cell a divisor is drawn, from `SEED_DIVISOR_MIN` up to
    /// but not including `SEED_DIVISOR_END`, and the cell is alive exactly
    /// when the divisor divides the place where the cell is stored.
    pub fn new(height: u32, width: u32) -> (universe: Universe)
        requires
            height * width <= usize::MAX,
        ensures
            universe@.height == height,
            universe@.width == width,
            universe@.wf(),
            forall|i: int|
                0 <= i < universe@.cells.len() ==> may_seed(i as nat, #[trigger] universe@.cells[i]),
    {
        assert((height as usize) * (width as usize) == height * width) by (nonlinear_arith)
            requires
                height * width <= usize::MAX,
                0 <= height,
                0 <= width,
        ;
        let area: usize = (height as usize) * (width as usize);
        let mut rng = rand::thread_rng();
        let mut cells: Vec<Cell> = Vec::with_capacity(area);
        let mut i: usize = 0;
        while i < area
            invariant
                i <= area,
                cells@.len() == i,
                forall|k: int| 0 <= k < i ==> may_seed(k as nat, #[trigger] cells@[k]),
            decreases area - i,
        {
            let divisor = gen_range(&mut rng, SEED_DIVISOR_MIN, SEED_DIVISOR_END);
            let cell = Cell::seeded(i, divisor);
            assert(cell == seed(i as nat, divisor as nat));
            cells.push(cell);
            i = i + 1;
        }
        Universe { height, width, cells }
    }

    /// The universe of `height` rows and `width` columns that holds `cells`,
    /// row by row; `None` unless there is exactly one cell for each position.
    pub fn from_cells(height: u32, width: u32, cells: Vec<Cell>) -> (made: Option<Universe>)
        ensures
            made.is_some() <==> cells@.len() == height * width,
            made matches Some(universe) ==> universe@ == (Grid {
                height: height as nat,
                width: width as nat,
                cells: cells@,
            }),
    {
        assert(height * width <= 0xffff_ffff * 0xffff_ffff) by (nonlinear_arith)
            requires
                0 <= height <= 0xffff_ffff,
                0 <= width <= 0xffff_ffff,
        ;
        if cells.len() as u128 == (height as u128) * (width as u128) {
            Some(Universe { height, width, cells })
        } else {
            None
        }
    }

    /// The number of rows.
    pub fn height(&self) -> (height: u32)
        ensures
            height == self@.height,
    {
        self.height
    }

    /// The number of columns.
    pub fn width(&self) -> (width: u32)
        ensures
            width == self@.width,
    {
        self.width
    }

    /// The cells of the current generation, row by row.
    pub fn get_cells(&self) -> (cells: &[Cell])
        ensures
            cells@ == self@.cells,
            cells@.len() == self@.height * self@.width,
            self@.wf(),
    {
        proof {
            use_type_invariant(self);
        }
        self.cells.as_slice()
    }

    /// Where the cell at `(row, column)` is stored.
    pub fn get_index(&self, row: u32, column: u32) -> (index: usize)
        requires
            self@.has(row as int, column as int),
        ensures
            index == self@.index(row as int, column as int),
            index < self@.cells.len(),
    {
        proof {
            use_type_invariant(self);
            lemma_index_in_range(self@, row as int, column as int);
            assert(self@.cells.len() == self.cells.len() <= usize::MAX);
            assert((self.width as int) * (row as int) == (self.width as usize) * (row as usize));
        }
        (self.width as usize) * (row as usize) + (column as usize)
    }

    /// How many of the eight cells around `(row, column)` are alive, with
    /// the grid's edges joined to the opposite edges.
    pub fn live_neighbor_count(&self, row: u32, column: u32) -> (count: u8)
        requires
            self@.has(row as int, column as int),
        ensures
            count == self@.live_neighbors(row as int, column as int),
            count <= 8,
    {
        let row_deltas: [u32; 3] = [self.height - 1, 0, 1];
        let column_deltas: [u32; 3] = [self.width - 1, 0, 1];
        let ghost r = row as int;
        let ghost c = column as int;
        let mut count: u8 = 0;
        let mut i: usize = 0;
        while i < 3
            invariant
                i <= 3,
                self@.has(r, c),
                r == row,
                c == column,
                row_deltas@ =~= seq![(self.height - 1) as u32, 0u32, 1u32],
                column_deltas@ =~= seq![(self.width - 1) as u32, 0u32, 1u32],
                count == counted(self@, r, c, 3 * i as nat),
                count <= 3 * i,
            decreases 3 - i,
        {
            let mut j: usize = 0;
            while j < 3
                invariant
                    i < 3,
                    j <= 3,
                    self@.has(r, c),
                    r == row,
                    c == column,
                    row_deltas@ =~= seq![(self.height - 1) as u32, 0u32, 1u32],
                    column_deltas@ =~= seq![(self.width - 1) as u32, 0u32, 1u32],
                    count == counted(self@, r, c, (3 * i + j) as nat),
                    count <= 3 * i + j,
                decreases 3 - j,
            {
                if i != 1 || j != 1 {
                    proof {
                        lemma_biased_offset(r, i as int, self.height as int);
                        lemma_biased_offset(c, j as int, self.width as int);
                    }
                    let neighbor_row = wrapped(row, row_deltas[i], self.height);
                    let neighbor_column = wrapped(column, column_deltas[j], self.width);
                    let idx = self.get_index(neighbor_row, neighbor_column);
                    count = count + self.cells[idx].as_u8();
                }
                j = j + 1;
            }
            i = i + 1;
        }
        proof {
            lemma_counted_all(self@, r, c);
        }
        count
    }

    /// The state of the cell at `(row, column)` in the next generation.
    pub fn get_next_stage(&self, row: u32, column: u32) -> (next: Cell)
        requires
            self@.has(row as int, column as int),
        ensures
            next == self@.next_cell(row as int, column as int),
    {
        let idx = self.get_index(row, column);
        self.cells[idx].next_state(self.live_neighbor_count(row, column))
    }

    /// Advances the universe by one generation: every cell takes the state
    /// that the rule gives it on the generation before the call.
    pub fn tick(&mut self)
        ensures
            final(self)@ == old(self)@.step(),
            final(self)@.wf(),
    {
        proof {
            use_type_invariant(&*self);
        }
        let ghost before = self@;
        let mut next_gen = self.cells.clone();
        let mut row: u32 = 0;
        while row < self.height
            invariant
                row <= self.height,
                self@ == before,
                before.wf(),
                next_gen@.len() == before.cells.len(),
                forall|k: int|
                    0 <= k < row * before.width ==> #[trigger] next_gen@[k] == before.next_cell(
                        k / (before.width as int),
                        k % (before.width as int),
                    ),
            decreases self.height - row,
        {
            let mut column: u32 = 0;
            while column < self.width
                invariant
                    row < self.height,
                    column <= self.width,
                    self@ == before,
                    before.wf(),
                    next_gen@.len() == before.cells.len(),
                    forall|k: int|
                        0 <= k < row * before.width + column ==> #[trigger] next_gen@[k]
                            == before.next_cell(
                            k / (before.width as int),
                            k % (before.width as int),
                        ),
                decreases self.width - column,
            {
                let idx = self.get_index(row, column);
                let next = self.get_next_stage(row, column);
                proof {
                    lemma_position_of_index(before, row as int, column as int);
                }
                next_gen.set(idx, next);
                column = column + 1;
            }
            proof {
                assert(row * before.width + before.width == (row + 1) * before.width)
                    by (nonlinear_arith);
            }
            row = row + 1;
        }
        proof {
            assert(next_gen@ =~= before.step().cells);
        }
        self.cells = next_gen;
    }

    /// The universe as text: row by row, the glyph of each cell of the row
    /// and then a line feed.
    pub fn render(&self) -> (text: String)
        ensures
            text@ == self@.rendering(),
    {
        let ghost grid = self@;
        let ghost line = grid.line();
        let mut text = String::new();
        let mut row: u32 = 0;
        while row < self.height
            invariant
                row <= self.height,
                self@ == grid,
                line == grid.line(),
                text@.len() == row * line,
                forall|k: int| 0 <= k < text@.len() ==> #[trigger] text@[k] == grid.rendering()[k],
            decreases self.height - row,
        {
            let mut column: u32 = 0;
            while column < self.width
                invariant
                    row < self.height,
                    column <= self.width,
                    self@ == grid,
                    line == grid.line(),
                    text@.len() == row * line + column,
                    forall|k: int|
                        0 <= k < text@.len() ==> #[trigger] text@[k] == grid.rendering()[k],
                decreases self.width - column,
            {
                let idx = self.get_index(row, column);
                proof {
                    lemma_position_in_line(grid, row as int, column as int);
                }
                text.append(self.cells[idx].symbol());
                column = column + 1;
            }
            proof {
                reveal_strlit("\n");
                lemma_position_in_line(grid, row as int, column as int);
                assert(row * line + line == (row + 1) * line) by (nonlinear_arith);
            }
            text.append("\n");
            row = row + 1;
        }
        proof {
            assert(text@ =~= grid.rendering());
        }
        text
    }
}

/// The position reached from `i` on a ring of `n` positions by adding
/// `delta`, which stands for one step back when it is `n - 1`.
fn wrapped(i: u32, delta: u32, n: u32) -> (at: u32)
    requires
        i < n,
    ensures
        at == (i + delta) % (n as int),
        at < n,
{
    proof {
        lemma_mod_bound(i + delta, n as int);
    }
    ((i as u64 + delta as u64) % (n as u64)) as u32
}

/// The offset that is added at place `place` of the three offsets
/// `n - 1`, `0`, `1` on a ring of `n` positions.
spec fn biased(place: int, n: int) -> int {
    if place == 0 {
        n - 1
    } else if place == 1 {
        0
    } else {
        1
    }
}

/// Adding the offset at place `place` leads to the position that lies
/// `place - 1` steps away.
proof fn lemma_biased_offset(i: int, place: int, n: int)
    requires
        0 <= i < n,
        0 <= place < 3,
    ensures
        (i + biased(place, n)) % n == wrap(i, place - 1, n),
        0 <= wrap(i, place - 1, n) < n,
{
    lemma_mod_add_multiples_vanish(i + place - 1, n);
    lemma_mod_bound(i + n + place - 1, n);
}

/// The live cells among the first `k` of the nine offsets around
/// `(row, column)`, taken row by row, the cell itself left out.
spec fn counted(grid: Grid, row: int, column: int, k: nat) -> nat
    decreases k,
{
    if k == 0 {
        0
    } else {
        let place = (k - 1) as int;
        counted(grid, row, column, (k - 1) as nat) + if place == 4 {
            0
        } else {
            grid.neighbor(row, column, place / 3 - 1, place % 3 - 1).value()
        }
    }
}

/// All nine offsets together count the eight neighbors.
proof fn lemma_counted_all(grid: Grid, row: int, column: int)
    ensures
        counted(grid, row, column, 9) == grid.live_neighbors(row, column),
{
    reveal_with_fuel(counted, 10);
}

/// Where the glyph of a position, or the line feed that ends its row, stands
/// in the rendering.
proof fn lemma_position_in_line(grid: Grid, row: int, column: int)
    requires
        0 <= row < grid.height,
        0 <= column <= grid.width,
    ensures
        0 <= row * grid.line() + column < grid.height * grid.line(),
        (row * grid.line() + column) / grid.line() == row,
        (row * grid.line() + column) % grid.line() == column,
{
    let line = grid.line();
    let h = grid.height as int;
    assert(0 <= row * line && row * line + line <= h * line) by (nonlinear_arith)
        requires
            0 <= row < h,
            0 < line,
    ;
    lemma_fundamental_div_mod_converse_div(
        row * line + column,
        line,
        row,
        column,
    );
    lemma_fundamental_div_mod_converse_mod(
        row * line + column,
        line,
        row,
        column,
    );
}

} // verus!
