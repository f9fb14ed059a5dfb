//! The state of one cell and the rule that decides its next state.

use vstd::prelude::*;

verus! {

/// A cell is either dead or alive.
#[derive(Clone, Copy, Debug, PartialEq, Eq, Structural)]
pub enum Cell {
    Dead,
    Alive,
}

/// The glyph that stands for a dead cell in a rendering.
pub open spec fn dead_glyph() -> char {
    '\u{25fb}'
}

/// The glyph that stands for a live cell in a rendering.
pub open spec fn alive_glyph() -> char {
    '\u{25fc}'
}

/// The next state of a cell in state `cell` that has `live_neighbors` live
/// neighbors: a live cell survives with two or three of them, a dead cell is
/// born with exactly three, and every other cell is dead.
pub open spec fn rule(cell: Cell, live_neighbors: nat) -> Cell {
    match cell {
        Cell::Alive => if live_neighbors == 2 || live_neighbors == 3 {
            Cell::Alive
        } else {
            Cell::Dead
        },
        Cell::Dead => if live_neighbors == 3 {
            Cell::Alive
        } else {
            Cell::Dead
        },
    }
}

/// The least divisor that seeding draws for a cell.
pub const SEED_DIVISOR_MIN: u32 = 1;

/// The bound below which seeding draws the divisor for a cell.
pub const SEED_DIVISOR_END: u32 = 13;

/// The state that seeding gives to the cell at `index` when `divisor` was
/// drawn for it: alive exactly when the divisor divides the index.
pub open spec fn seed(index: nat, divisor: nat) -> Cell {
    if index % divisor == 0 {
        Cell::Alive
    } else {
        Cell::Dead
    }
}

/// Seeding can leave the cell at `index` in state `cell`: some divisor that
/// it may draw gives that state.
pub open spec fn may_seed(index: nat, cell: Cell) -> bool {
    exists|divisor: nat|
        SEED_DIVISOR_MIN <= divisor < SEED_DIVISOR_END && cell == #[trigger] seed(index, divisor)
}

impl Cell {
    /// What the cell adds to a count of live cells: 1 if alive, 0 if dead.
    pub open spec fn value(self) -> nat {
        match self {
            Cell::Dead => 0,
            Cell::Alive => 1,
        }
    }

    /// The glyph that stands for the cell in a rendering.
    pub open spec fn glyph(self) -> char {
        match self {
            Cell::Dead => dead_glyph(),
            Cell::Alive => alive_glyph(),
        }
    }

    /// The cell as a byte: 0 for dead, 1 for alive.
    pub fn as_u8(self) -> (byte: u8)
        ensures
            byte == self.value(),
    {
        match self {
            Cell::Dead => 0,
            Cell::Alive => 1,
        }
    }

    /// The glyph of the cell as a string of one character.
    pub fn symbol(self) -> (text: &'static str)
        ensures
            text@ == seq![self.glyph()],
    {
        proof {
            reveal_strlit("\u{25fb}");
            reveal_strlit("\u{25fc}");
        }
        let text = match self {
            Cell::Dead => "\u{25fb}",
            Cell::Alive => "\u{25fc}",
        };
        assert(text@ =~= seq![self.glyph()]);
        text
    }

    /// The state of this cell in the next generation, given how many of its
    /// neighbors are alive now.
    pub fn next_state(self, live_neighbors: u8) -> (next: Cell)
        ensures
            next == rule(self, live_neighbors as nat),
    {
        match self {
            Cell::Alive => {
                if live_neighbors == 2 || live_neighbors == 3 {
                    Cell::Alive
                } else {
                    Cell::Dead
                }
            },
            Cell::Dead => {
                if live_neighbors == 3 {
                    Cell::Alive
                } else {
                    Cell::Dead
                }
            },
        }
    }

    /// The initial state of the cell at `index` when `divisor` was drawn for it.
    pub fn seeded(index: usize, divisor: u32) -> (cell: Cell)
        requires
            divisor > 0,
        ensures
            cell == seed(index as nat, divisor as nat),
    {
        if (index as u64) % (divisor as u64) == 0 {
            Cell::Alive
        } else {
            Cell::Dead
        }
    }
}

} // verus!
