use vstd::prelude::*;

verus! {

/// State of one cell of the grid.
#[derive(Clone, Copy, Debug, PartialEq, Eq, Structural)]
pub enum Cell {
    Dead,
    Alive,
}

/// Weight of a cell when neighbours are summed: `Alive` counts 1, `Dead` 0.
pub open spec fn cell_value(c: Cell) -> int {
    match c {
        Cell::Dead => 0,
        Cell::Alive => 1,
    }
}

/// The other state.
pub open spec fn flipped(c: Cell) -> Cell {
    match c {
        Cell::Dead => Cell::Alive,
        Cell::Alive => Cell::Dead,
    }
}

/// The transition rule: the state a cell takes in the next generation,
/// given its current state and its number of live neighbours.
pub open spec fn next_state(c: Cell, live: int) -> Cell {
    match c {
        Cell::Alive => if live == 2 || live == 3 {
            Cell::Alive
        } else {
            Cell::Dead
        },
        Cell::Dead => if live == 3 {
            Cell::Alive
        } else {
            Cell::Dead
        },
    }
}

impl Cell {
    /// Flips the cell between `Dead` and `Alive`.
    pub fn toggle(&mut self)
        ensures
            *final(self) == flipped(*old(self)),
    {
        *self = match *self {
            Cell::Dead => Cell::Alive,
            Cell::Alive => Cell::Dead,
        };
    }

    /// The cell's weight as a byte.
    pub fn value(self) -> (r: u8)
        ensures
            r as int == cell_value(self),
    {
        match self {
            Cell::Dead => 0,
            Cell::Alive => 1,
        }
    }
}

/// Applies the transition rule to one cell.
pub fn next_cell_state(cell: Cell, live_neighbors: u8) -> (r: Cell)
    ensures
        r == next_state(cell, live_neighbors as int),
{
    match cell {
        Cell::Alive => {
            if live_neighbors < 2 {
                // underpopulation
                Cell::Dead
            } else if live_neighbors <= 3 {
                Cell::Alive
            } else {
                // overpopulation
                Cell::Dead
            }
        },
        Cell::Dead => {
            if live_neighbors == 3 {
                // reproduction
                Cell::Alive
            } else {
                Cell::Dead
            }
        },
    }
}

} // verus!
