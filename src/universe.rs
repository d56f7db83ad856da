//! The simulation object: a grid together with its rate controller.
use vstd::prelude::*;
use vstd::arithmetic::div_mod::lemma_fundamental_div_mod_converse;
use crate::cell::{Cell, flipped, next_cell_state};
use crate::grid::{generations, lemma_generations_add, lemma_generations_len, line_text, neighbor_count, next_cell, next_generation, rows_text, wrapped_value};
use crate::rate::{RateMode, callbacks, median_of, mode_after_callback, mode_for, ticks_on_callback};

verus! {

/// Width of the grid that `Universe::new` builds.
pub const DEFAULT_WIDTH: u32 = 64;

/// Height of the grid that `Universe::new` builds.
pub const DEFAULT_HEIGHT: u32 = 64;

/// Why a universe could not be built.
#[derive(Clone, Copy, Debug, PartialEq, Eq, Structural)]
pub enum UniverseError {
    /// A dimension is zero, the number of cells does not fit in `u32`, or
    /// the cells given are not `width * height` in number.
    InvalidDimensions,
}

/// A universe as a mathematical value.
pub struct UniverseModel {
    pub width: nat,
    pub height: nat,
    pub cells: Seq<Cell>,
    pub median_tpf: Option<u32>,
    pub mode: RateMode,
}

impl UniverseModel {
    /// Dimensions of at least one, a buffer of exactly `width * height`
    /// cells whose indices fit in `u32`, and a consistent rate state.
    pub open spec fn wf(self) -> bool {
        &&& 1 <= self.width
        &&& 1 <= self.height
        &&& self.width * self.height <= u32::MAX
        &&& self.cells.len() == self.width * self.height
        &&& self.mode.wf()
        &&& (self.median_tpf matches Some(m) ==> 1 <= m <= median_of(u32::MAX as nat))
    }
}

/// Seed pattern: cell `i` starts alive iff `i` is a multiple of 2 or of 7.
pub open spec fn initial_cell(i: int) -> Cell {
    if i % 2 == 0 || i % 7 == 0 {
        Cell::Alive
    } else {
        Cell::Dead
    }
}

/// The model after `tick`.
pub open spec fn tick_step(s: UniverseModel) -> UniverseModel {
    UniverseModel { cells: next_generation(s.cells, s.width, s.height), ..s }
}

/// The model after `toggle_cell(row, column)`.
pub open spec fn toggle_step(s: UniverseModel, row: int, column: int) -> UniverseModel {
    let i = row * s.width + column;
    UniverseModel { cells: s.cells.update(i, flipped(s.cells[i])), ..s }
}

/// The model after `set_max_tpf(max_tpf)`.
pub open spec fn set_max_tpf_step(s: UniverseModel, max_tpf: u32) -> UniverseModel {
    UniverseModel { median_tpf: Some(median_of(max_tpf as nat) as u32), ..s }
}

/// The model after `update_tick_rate(tick_rate)`.
pub open spec fn update_tick_rate_step(s: UniverseModel, tick_rate: u32) -> UniverseModel {
    UniverseModel { mode: mode_for(s.median_tpf.unwrap() as nat, tick_rate as nat), ..s }
}

/// The model after `controller()`.
pub open spec fn controller_step(s: UniverseModel) -> UniverseModel {
    UniverseModel {
        cells: generations(s.cells, s.width, s.height, ticks_on_callback(s.mode)),
        mode: mode_after_callback(s.mode),
        ..s
    }
}

proof fn lemma_index_in_grid(row: int, column: int, width: int, height: int)
    requires
        0 <= row < height,
        0 <= column < width,
    ensures
        0 <= row * width + column < width * height,
        row * width + width == (row + 1) * width,
        (row + 1) * width <= height * width,
{
    assert(0 <= row * width + column < width * height) by (nonlinear_arith)
        requires
            0 <= row < height,
            0 <= column < width,
    ;
    assert(row * width + width == (row + 1) * width) by (nonlinear_arith);
    assert((row + 1) * width <= height * width) by (nonlinear_arith)
        requires
            0 <= row < height,
            0 <= column < width,
    ;
}


/// Toggling the same cell twice gives back the universe it started from,
/// and a single toggle leaves every other cell as it was.
pub proof fn lemma_toggle_twice(s: UniverseModel, row: int, column: int)
    requires
        s.wf(),
        0 <= row < s.height,
        0 <= column < s.width,
    ensures
        toggle_step(toggle_step(s, row, column), row, column) == s,
        forall|i: int|
            0 <= i < s.cells.len() && i != row * s.width + column ==> #[trigger] toggle_step(s, row, column).cells[i]
                == s.cells[i],
{
    lemma_index_in_grid(row, column, s.width as int, s.height as int);
    let once = toggle_step(s, row, column);
    let twice = toggle_step(once, row, column);
    assert(twice.cells =~= s.cells);
}

/// The universe after `k` callbacks of `controller`.
pub open spec fn run_controller(s: UniverseModel, k: nat) -> UniverseModel
    decreases k,
{
    if k == 0 {
        s
    } else {
        controller_step(run_controller(s, (k - 1) as nat))
    }
}

/// `k` callbacks advance the grid by the total number of generations that
/// the regimes they pass through ask for, and leave the regime that
/// `callbacks` reaches.
pub proof fn lemma_controller_runs(s: UniverseModel, k: nat)
    ensures
        run_controller(s, k) == (UniverseModel {
            cells: generations(s.cells, s.width, s.height, callbacks(s.mode, k).0),
            mode: callbacks(s.mode, k).1,
            ..s
        }),
    decreases k,
{
    if k > 0 {
        lemma_controller_runs(s, (k - 1) as nat);
        let (t, m) = callbacks(s.mode, (k - 1) as nat);
        lemma_generations_add(s.cells, s.width, s.height, t, ticks_on_callback(m));
    }
}

/// A mutating call on a universe, as a value.
pub enum Call {
    Tick,
    ToggleCell { row: u32, column: u32 },
    SetMaxTpf { max_tpf: u32 },
    UpdateTickRate { tick_rate: u32 },
    Controller,
}

/// The universe after `call`.
pub open spec fn call_step(s: UniverseModel, call: Call) -> UniverseModel {
    match call {
        Call::Tick => tick_step(s),
        Call::ToggleCell { row, column } => toggle_step(s, row as int, column as int),
        Call::SetMaxTpf { max_tpf } => set_max_tpf_step(s, max_tpf),
        Call::UpdateTickRate { tick_rate } => update_tick_rate_step(s, tick_rate),
        Call::Controller => controller_step(s),
    }
}

/// The universe after `calls`, made in order.
pub open spec fn replay(s: UniverseModel, calls: Seq<Call>) -> UniverseModel
    decreases calls.len(),
{
    if calls.len() == 0 {
        s
    } else {
        call_step(replay(s, calls.drop_last()), calls.last())
    }
}

/// Two universes that start equal and receive the same calls hold the same
/// cells after every one of them: each call's result is a function of the
/// universe before it and of its arguments alone.
pub proof fn lemma_replay_deterministic(a: UniverseModel, b: UniverseModel, calls: Seq<Call>)
    requires
        a == b,
    ensures
        forall|k: int| 0 <= k <= calls.len() ==> #[trigger] replay(a, calls.take(k)).cells == replay(b, calls.take(k)).cells,
{
}

/// The grid, its dimensions and the tick-rate controller's state.
pub struct Universe {
    width: u32,
    height: u32,
    cells: Vec<Cell>,
    median_tpf: Option<u32>,
    mode: RateMode,
}

impl View for Universe {
    type V = UniverseModel;

    closed spec fn view(&self) -> UniverseModel {
        UniverseModel {
            width: self.width as nat,
            height: self.height as nat,
            cells: self.cells@,
            median_tpf: self.median_tpf,
            mode: self.mode,
        }
    }
}

impl Universe {
    /// A 64 by 64 universe seeded with the fixed pattern, and no rate set.
    pub fn new() -> (u: Universe)
        ensures
            u@.wf(),
            u@.width == DEFAULT_WIDTH,
            u@.height == DEFAULT_HEIGHT,
            u@.cells == Seq::new((DEFAULT_WIDTH * DEFAULT_HEIGHT) as nat, |i: int| initial_cell(i)),
            u@.median_tpf is None,
            u@.mode == RateMode::Unset,
    {
        let width: u32 = DEFAULT_WIDTH;
        let height: u32 = DEFAULT_HEIGHT;
        let size: u32 = width * height;
        let mut cells: Vec<Cell> = Vec::new();
        let mut i: u32 = 0;
        while i < size
            invariant
                size == DEFAULT_WIDTH * DEFAULT_HEIGHT,
                i <= size,
                cells@.len() == i,
                forall|j: int| 0 <= j < i ==> cells@[j] == initial_cell(j),
            decreases size - i,
        {
            let cell = if i % 2 == 0 || i % 7 == 0 {
                Cell::Alive
            } else {
                Cell::Dead
            };
            cells.push(cell);
            i += 1;
        }
        proof {
            assert(cells@ =~= Seq::new(size as nat, |i: int| initial_cell(i)));
        }
        Universe { width, height, cells, median_tpf: None, mode: RateMode::Unset }
    }

    /// A universe of the given dimensions holding `cells` in row-major
    /// order, with no rate set.
    pub fn from_cells(width: u32, height: u32, cells: Vec<Cell>) -> (r: Result<Universe, UniverseError>)
        ensures
            r is Ok <==> (1 <= width && 1 <= height && width * height <= u32::MAX
                && cells@.len() == width * height),
            r matches Ok(u) ==> u@ == (UniverseModel {
                width: width as nat,
                height: height as nat,
                cells: cells@,
                median_tpf: None,
                mode: RateMode::Unset,
            }),
            r matches Err(e) ==> e == UniverseError::InvalidDimensions,
    {
        if width == 0 || height == 0 {
            return Err(UniverseError::InvalidDimensions);
        }
        proof {
            assert(width as u64 * height as u64 <= u32::MAX as u64 * u32::MAX as u64) by (nonlinear_arith);
        }
        let size: u64 = width as u64 * height as u64;
        if size > u32::MAX as u64 || cells.len() as u64 != size {
            return Err(UniverseError::InvalidDimensions);
        }
        Ok(Universe { width, height, cells, median_tpf: None, mode: RateMode::Unset })
    }

    /// Index of `(row, column)` in the row-major buffer.
    pub fn get_index(&self, row: u32, column: u32) -> (idx: usize)
        requires
            self@.wf(),
            row < self@.height,
            column < self@.width,
        ensures
            idx == row * self@.width + column,
            idx < self@.cells.len(),
    {
        proof {
            lemma_index_in_grid(row as int, column as int, self.width as int, self.height as int);
        }
        (row * self.width + column) as usize
    }

    /// Weight of the cell `delta_row` rows below and `delta_col` columns to
    /// the right of `(row, column)`, wrapping around the edges.
    fn wrapped_cell_value(&self, row: u32, column: u32, delta_row: u32, delta_col: u32) -> (v: u8)
        requires
            self@.wf(),
            row < self@.height,
            column < self@.width,
            delta_row <= self@.height,
            delta_col <= self@.width,
        ensures
            v == wrapped_value(self@.cells, self@.width, self@.height, row + delta_row, column + delta_col),
    {
        let r = ((row as u64 + delta_row as u64) % (self.height as u64)) as u32;
        let c = ((column as u64 + delta_col as u64) % (self.width as u64)) as u32;
        let idx = self.get_index(r, c);
        self.cells[idx].value()
    }

    /// Number of live cells among the eight neighbours of `(row, column)`,
    /// on the torus.
    pub fn live_neighbor_count(&self, row: u32, column: u32) -> (n: u8)
        requires
            self@.wf(),
            row < self@.height,
            column < self@.width,
        ensures
            n == neighbor_count(self@.cells, self@.width, self@.height, row as int, column as int),
            n <= 8,
    {
        let up = self.height - 1;
        let left = self.width - 1;
        let mut count: u8 = 0;
        count = count + self.wrapped_cell_value(row, column, up, left);
        count = count + self.wrapped_cell_value(row, column, up, 0);
        count = count + self.wrapped_cell_value(row, column, up, 1);
        count = count + self.wrapped_cell_value(row, column, 0, left);
        count = count + self.wrapped_cell_value(row, column, 0, 1);
        count = count + self.wrapped_cell_value(row, column, 1, left);
        count = count + self.wrapped_cell_value(row, column, 1, 0);
        count = count + self.wrapped_cell_value(row, column, 1, 1);
        count
    }

    /// Advances one generation. Every cell is computed from the generation
    /// before, and the new generation replaces it whole.
    pub fn tick(&mut self)
        requires
            old(self)@.wf(),
        ensures
            final(self)@ == tick_step(old(self)@),
            final(self)@.wf(),
            final(self)@.cells.len() == final(self)@.width * final(self)@.height,
    {
        let ghost w = self.width as int;
        let ghost h = self.height as int;
        let mut next: Vec<Cell> = Vec::new();
        let mut row: u32 = 0;
        while row < self.height
            invariant
                *self == *old(self),
                self@.wf(),
                w == self.width,
                h == self.height,
                row <= h,
                next@.len() == row * w,
                forall|i: int| 0 <= i < row * w ==> next@[i] == next_cell(self@.cells, self@.width, self@.height, i),
            decreases h - row,
        {
            let mut col: u32 = 0;
            while col < self.width
                invariant
                    *self == *old(self),
                    self@.wf(),
                    w == self.width,
                    h == self.height,
                    row < h,
                    col <= w,
                    next@.len() == row * w + col,
                    forall|i: int|
                        0 <= i < row * w + col ==> next@[i] == next_cell(self@.cells, self@.width, self@.height, i),
                decreases w - col,
            {
                let idx = self.get_index(row, col);
                let cell = self.cells[idx];
                let live_neighbors = self.live_neighbor_count(row, col);
                proof {
                    lemma_fundamental_div_mod_converse(idx as int, w, row as int, col as int);
                }
                next.push(next_cell_state(cell, live_neighbors));
                col += 1;
            }
            proof {
                lemma_index_in_grid(row as int, 0, w, h);
            }
            row += 1;
        }
        proof {
            assert(h * w == w * h) by (nonlinear_arith);
            assert(next@ =~= next_generation(self@.cells, self@.width, self@.height));
        }
        self.cells = next;
    }

    /// Advances `ticks` generations back to back.
    fn increase_tpf(&mut self, ticks: u32)
        requires
            old(self)@.wf(),
        ensures
            final(self)@ == (UniverseModel {
                cells: generations(old(self)@.cells, old(self)@.width, old(self)@.height, ticks as nat),
                ..old(self)@
            }),
    {
        let mut k: u32 = 0;
        while k < ticks
            invariant
                k <= ticks,
                self@.wf(),
                self@ == (UniverseModel {
                    cells: generations(old(self)@.cells, old(self)@.width, old(self)@.height, k as nat),
                    ..old(self)@
                }),
            decreases ticks - k,
        {
            self.tick();
            k += 1;
        }
    }

    /// One callback of the decelerated regime: a generation on the last
    /// frame of each period, nothing on the others.
    fn decrease_tpf(&mut self, every: u32, frame: u32)
        requires
            old(self)@.wf(),
            old(self)@.mode == (RateMode::Decelerated { every, frame }),
        ensures
            final(self)@ == controller_step(old(self)@),
    {
        if every == frame {
            self.mode = RateMode::Decelerated { every, frame: 1 };
            self.tick();
            proof {
                reveal_with_fuel(generations, 2);
            }
        } else {
            self.mode = RateMode::Decelerated { every, frame: frame + 1 };
        }
    }

    /// One host callback: advances as many generations as the active
    /// regime asks for (none before a rate was requested).
    pub fn controller(&mut self)
        requires
            old(self)@.wf(),
        ensures
            final(self)@ == controller_step(old(self)@),
            final(self)@.wf(),
    {
        proof {
            lemma_generations_len(self@.cells, self@.width, self@.height, ticks_on_callback(self@.mode));
        }
        match self.mode {
            RateMode::Unset => {},
            RateMode::Neutral => {
                self.tick();
                proof {
                    reveal_with_fuel(generations, 2);
                }
            },
            RateMode::Accelerated { ticks } => self.increase_tpf(ticks),
            RateMode::Decelerated { every, frame } => self.decrease_tpf(every, frame),
        }
    }

    /// Enters the regime that `tick_rate` asks for against the stored
    /// median, and starts it afresh.
    pub fn update_tick_rate(&mut self, tick_rate: u32)
        requires
            old(self)@.wf(),
            old(self)@.median_tpf is Some,
        ensures
            final(self)@ == update_tick_rate_step(old(self)@, tick_rate),
            final(self)@.wf(),
    {
        let median_tpf = match self.median_tpf {
            Some(m) => m,
            None => 1,
        };
        if tick_rate == median_tpf {
            self.mode = RateMode::Neutral;
        } else if tick_rate > median_tpf {
            self.mode = RateMode::Accelerated { ticks: tick_rate - median_tpf + 1 };
        } else {
            self.mode = RateMode::Decelerated { every: median_tpf - tick_rate + 1, frame: 1 };
        }
    }

    /// Stores the median derived from `max_tpf`; the active regime stays
    /// until the next `update_tick_rate`.
    pub fn set_max_tpf(&mut self, max_tpf: u32)
        requires
            old(self)@.wf(),
        ensures
            final(self)@ == set_max_tpf_step(old(self)@, max_tpf),
            final(self)@.wf(),
    {
        self.median_tpf = Some(max_tpf / 2 + 1);
    }

    /// Flips the cell at `(row, column)`; no other cell changes.
    pub fn toggle_cell(&mut self, row: u32, column: u32)
        requires
            old(self)@.wf(),
            row < old(self)@.height,
            column < old(self)@.width,
        ensures
            final(self)@ == toggle_step(old(self)@, row as int, column as int),
            final(self)@.wf(),
    {
        let idx = self.get_index(row, column);
        let mut cell = self.cells[idx];
        cell.toggle();
        self.cells.set(idx, cell);
    }

    pub fn width(&self) -> (w: u32)
        ensures
            w == self@.width,
    {
        self.width
    }

    pub fn height(&self) -> (h: u32)
        ensures
            h == self@.height,
    {
        self.height
    }

    /// The current generation, row by row; valid until the next mutating call.
    pub fn cells(&self) -> (c: &[Cell])
        ensures
            c@ == self@.cells,
    {
        self.cells.as_slice()
    }

    /// The median set by the last `set_max_tpf`, if any.
    pub fn median_tpf(&self) -> (m: Option<u32>)
        ensures
            m == self@.median_tpf,
    {
        self.median_tpf
    }

    /// Text form of the grid: one line per row, top to bottom, one glyph
    /// per cell, each line ended by a newline.
    pub fn render(&self) -> (text: String)
        requires
            self@.wf(),
        ensures
            text@ == rows_text(self@.cells, self@.width, self@.height),
    {
        let ghost w = self.width as int;
        let ghost h = self.height as int;
        let mut out = String::new();
        let mut row: u32 = 0;
        while row < self.height
            invariant
                self@.wf(),
                w == self.width,
                h == self.height,
                row <= h,
                out@ == rows_text(self@.cells, self@.width, row as nat),
            decreases h - row,
        {
            proof {
                lemma_index_in_grid(row as int, 0, w, h);
            }
            let mut col: u32 = 0;
            while col < self.width
                invariant
                    self@.wf(),
                    w == self.width,
                    h == self.height,
                    row < h,
                    col <= w,
                    row * w + w == (row + 1) * w,
                    (row + 1) * w <= h * w,
                    out@ == rows_text(self@.cells, self@.width, row as nat)
                        + line_text(self@.cells.subrange(row * w, row * w + col)),
                decreases w - col,
            {
                let idx = self.get_index(row, col);
                let ghost before = out@;
                match self.cells[idx] {
                    Cell::Dead => out.append("\u{25FB}\u{FE0F}"),
                    Cell::Alive => out.append("\u{25FC}\u{FE0F}"),
                }
                proof {
                    reveal_strlit("\u{25FB}\u{FE0F}");
                    reveal_strlit("\u{25FC}\u{FE0F}");
                    let line = self@.cells.subrange(row * w, row * w + col + 1);
                    assert(line.drop_last() =~= self@.cells.subrange(row * w, row * w + col));
                    assert(line.last() == self@.cells[idx as int]);
                    assert(out@ =~= rows_text(self@.cells, self@.width, row as nat) + line_text(line));
                }
                col += 1;
            }
            out.append("\n");
            proof {
                reveal_strlit("\n");
                assert(out@ =~= rows_text(self@.cells, self@.width, (row + 1) as nat));
            }
            row += 1;
        }
        out
    }
}

} // verus!
