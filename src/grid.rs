//! The grid as a mathematical object: a row-major sequence of cells on a
//! torus, its neighbour counts, its successive generations and its text form.
use vstd::prelude::*;
use crate::cell::{Cell, cell_value, next_state};

verus! {

/// Weight of the cell at `(row, col)`, both coordinates taken modulo the
/// grid's dimensions.
pub open spec fn wrapped_value(cells: Seq<Cell>, width: nat, height: nat, row: int, col: int) -> int {
    cell_value(cells[(row % (height as int)) * width + col % (width as int)])
}

/// Number of live cells among the eight neighbours of `(row, col)`.
/// The row above is reached by adding `height - 1`, the column to the left
/// by adding `width - 1`, so every offset stays non-negative; each of the
/// eight offsets counts once, also where two of them land on the same cell.
pub open spec fn neighbor_count(cells: Seq<Cell>, width: nat, height: nat, row: int, col: int) -> int {
    let up = row + height - 1;
    let down = row + 1;
    let left = col + width - 1;
    let right = col + 1;
    wrapped_value(cells, width, height, up, left) + wrapped_value(cells, width, height, up, col)
        + wrapped_value(cells, width, height, up, right) + wrapped_value(cells, width, height, row, left)
        + wrapped_value(cells, width, height, row, right) + wrapped_value(cells, width, height, down, left)
        + wrapped_value(cells, width, height, down, col) + wrapped_value(cells, width, height, down, right)
}

/// State of cell `i` in the generation after `cells`.
pub open spec fn next_cell(cells: Seq<Cell>, width: nat, height: nat, i: int) -> Cell {
    next_state(
        cells[i],
        neighbor_count(cells, width, height, i / (width as int), i % (width as int)),
    )
}

/// The generation after `cells`: every cell is computed from `cells` alone.
pub open spec fn next_generation(cells: Seq<Cell>, width: nat, height: nat) -> Seq<Cell> {
    Seq::new(cells.len(), |i: int| next_cell(cells, width, height, i))
}

/// The grid after `k` generations.
pub open spec fn generations(cells: Seq<Cell>, width: nat, height: nat, k: nat) -> Seq<Cell>
    decreases k,
{
    if k == 0 {
        cells
    } else {
        next_generation(generations(cells, width, height, (k - 1) as nat), width, height)
    }
}

/// Advancing `a` generations and then `b` more is advancing `a + b`.
pub proof fn lemma_generations_add(cells: Seq<Cell>, width: nat, height: nat, a: nat, b: nat)
    ensures
        generations(generations(cells, width, height, a), width, height, b)
            == generations(cells, width, height, a + b),
    decreases b,
{
    if b > 0 {
        lemma_generations_add(cells, width, height, a, (b - 1) as nat);
    }
}

/// Every generation has as many cells as the first.
pub proof fn lemma_generations_len(cells: Seq<Cell>, width: nat, height: nat, k: nat)
    ensures
        generations(cells, width, height, k).len() == cells.len(),
    decreases k,
{
    if k > 0 {
        lemma_generations_len(cells, width, height, (k - 1) as nat);
    }
}

/// A lone live cell in the top-left corner of an `n` by `n` grid is a
/// neighbour of the bottom-right corner, through the wrap of both edges.
pub proof fn lemma_corner_wraps(cells: Seq<Cell>, n: nat)
    requires
        n >= 1,
        cells.len() == n * n,
        cells[0] == Cell::Alive,
    ensures
        neighbor_count(cells, n, n, n - 1, n - 1) >= 1,
        wrapped_value(cells, n, n, n as int, n as int) == 1,
{
    let m = n as int;
    assert(m % m == 0) by (nonlinear_arith)
        requires m >= 1;
    assert(0 * m == 0);
    assert forall|r: int, c: int| 0 <= r && 0 <= c implies #[trigger] wrapped_value(cells, n, n, r, c) >= 0 by {
    }
}

/// The glyph drawn for a cell: two characters, a square and a variation
/// selector.
pub open spec fn glyph(c: Cell) -> Seq<char> {
    match c {
        Cell::Dead => seq!['\u{25FB}', '\u{FE0F}'],
        Cell::Alive => seq!['\u{25FC}', '\u{FE0F}'],
    }
}

/// The glyphs of `line`, left to right.
pub open spec fn line_text(line: Seq<Cell>) -> Seq<char>
    decreases line.len(),
{
    if line.len() == 0 {
        Seq::empty()
    } else {
        line_text(line.drop_last()) + glyph(line.last())
    }
}

/// The first `rows` rows of the grid, each followed by a newline.
pub open spec fn rows_text(cells: Seq<Cell>, width: nat, rows: nat) -> Seq<char>
    decreases rows,
{
    if rows == 0 {
        Seq::empty()
    } else {
        rows_text(cells, width, (rows - 1) as nat)
            + line_text(cells.subrange((rows - 1) * width, (rows * width) as int))
            + seq!['\n']
    }
}

} // verus!
