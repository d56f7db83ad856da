use game_of_life::{Cell, Universe, UniverseError};

fn grid(width: u32, height: u32, alive: &[(u32, u32)]) -> Universe {
    let mut cells = vec![Cell::Dead; (width * height) as usize];
    for &(r, c) in alive {
        cells[(r * width + c) as usize] = Cell::Alive;
    }
    Universe::from_cells(width, height, cells).unwrap()
}

fn alive_cells(u: &Universe) -> Vec<(u32, u32)> {
    let mut out = Vec::new();
    for r in 0..u.height() {
        for c in 0..u.width() {
            if u.cells()[(r * u.width() + c) as usize] == Cell::Alive {
                out.push((r, c));
            }
        }
    }
    out
}

#[test]
fn new_has_default_size_and_seed() {
    let u = Universe::new();
    assert_eq!(u.width(), 64);
    assert_eq!(u.height(), 64);
    assert_eq!(u.cells().len(), 64 * 64);
    for (i, &cell) in u.cells().iter().enumerate() {
        let expected = if i % 2 == 0 || i % 7 == 0 { Cell::Alive } else { Cell::Dead };
        assert_eq!(cell, expected, "cell {}", i);
    }
    assert_eq!(u.cells()[7], Cell::Alive);
    assert_eq!(u.cells()[9], Cell::Dead);
    assert_eq!(u.cells()[21], Cell::Alive);
    assert_eq!(u.median_tpf(), None);
}

#[test]
fn from_cells_rejects_bad_dimensions() {
    assert_eq!(
        Universe::from_cells(0, 3, vec![]).err(),
        Some(UniverseError::InvalidDimensions)
    );
    assert_eq!(
        Universe::from_cells(3, 0, vec![]).err(),
        Some(UniverseError::InvalidDimensions)
    );
    assert_eq!(
        Universe::from_cells(2, 2, vec![Cell::Dead; 3]).err(),
        Some(UniverseError::InvalidDimensions)
    );
    assert_eq!(
        Universe::from_cells(65536, 65536, vec![]).err(),
        Some(UniverseError::InvalidDimensions)
    );
    let u = Universe::from_cells(3, 2, vec![Cell::Alive; 6]).unwrap();
    assert_eq!(u.width(), 3);
    assert_eq!(u.height(), 2);
}

#[test]
fn get_index_is_row_major() {
    let u = grid(5, 3, &[]);
    assert_eq!(u.get_index(0, 0), 0);
    assert_eq!(u.get_index(1, 0), 5);
    assert_eq!(u.get_index(2, 4), 14);
}

#[test]
fn tick_keeps_buffer_length() {
    let mut u = Universe::new();
    for _ in 0..3 {
        u.tick();
        assert_eq!(u.cells().len(), (u.width() * u.height()) as usize);
    }
    let mut v = grid(7, 3, &[(0, 0), (1, 1), (2, 2)]);
    v.tick();
    assert_eq!(v.cells().len(), 21);
}

#[test]
fn block_is_still_life() {
    let block = [(1, 1), (1, 2), (2, 1), (2, 2)];
    let mut u = grid(4, 4, &block);
    for _ in 0..6 {
        u.tick();
        assert_eq!(alive_cells(&u), block.to_vec());
    }
}

#[test]
fn blinker_oscillates() {
    let horizontal = vec![(2, 1), (2, 2), (2, 3)];
    let vertical = vec![(1, 2), (2, 2), (3, 2)];
    let mut u = grid(5, 5, &horizontal);
    u.tick();
    assert_eq!(alive_cells(&u), vertical);
    u.tick();
    assert_eq!(alive_cells(&u), horizontal);
}

#[test]
fn corner_cell_wraps_to_opposite_corner() {
    for n in 3..7u32 {
        let u = grid(n, n, &[(0, 0)]);
        assert_eq!(u.live_neighbor_count(n - 1, n - 1), 1);
        assert_eq!(u.live_neighbor_count(0, n - 1), 1);
        assert_eq!(u.live_neighbor_count(n - 1, 0), 1);
        assert_eq!(u.live_neighbor_count(0, 0), 0);
    }
}

#[test]
fn two_by_two_wrap_counts_each_offset() {
    let u = grid(2, 2, &[(0, 0)]);
    assert_eq!(u.live_neighbor_count(1, 1), 4);
    assert_eq!(u.live_neighbor_count(0, 1), 2);
}

#[test]
fn single_cell_is_its_own_neighbour() {
    let alive = grid(1, 1, &[(0, 0)]);
    assert_eq!(alive.live_neighbor_count(0, 0), 8);
    let dead = grid(1, 1, &[]);
    assert_eq!(dead.live_neighbor_count(0, 0), 0);
    let column = grid(1, 3, &[(0, 0)]);
    assert_eq!(column.live_neighbor_count(0, 0), 2);
    assert_eq!(column.live_neighbor_count(1, 0), 3);
}

fn center_after_tick(center: Cell, neighbors: usize) -> Cell {
    let around = [(1, 1), (1, 2), (1, 3), (2, 1), (2, 3), (3, 1), (3, 2), (3, 3)];
    let mut alive: Vec<(u32, u32)> = around[..neighbors].to_vec();
    if center == Cell::Alive {
        alive.push((2, 2));
    }
    let mut u = grid(7, 7, &alive);
    assert_eq!(u.live_neighbor_count(2, 2) as usize, neighbors);
    u.tick();
    u.cells()[u.get_index(2, 2)]
}

#[test]
fn live_cell_with_fewer_than_two_dies() {
    assert_eq!(center_after_tick(Cell::Alive, 0), Cell::Dead);
    assert_eq!(center_after_tick(Cell::Alive, 1), Cell::Dead);
}

#[test]
fn live_cell_with_two_or_three_lives() {
    assert_eq!(center_after_tick(Cell::Alive, 2), Cell::Alive);
    assert_eq!(center_after_tick(Cell::Alive, 3), Cell::Alive);
}

#[test]
fn live_cell_with_more_than_three_dies() {
    for n in 4..=8 {
        assert_eq!(center_after_tick(Cell::Alive, n), Cell::Dead);
    }
}

#[test]
fn dead_cell_with_three_is_born() {
    assert_eq!(center_after_tick(Cell::Dead, 3), Cell::Alive);
}

#[test]
fn dead_cell_otherwise_stays_dead() {
    for n in [0, 1, 2, 4, 5, 6, 7, 8] {
        assert_eq!(center_after_tick(Cell::Dead, n), Cell::Dead);
    }
}

#[test]
fn toggle_twice_restores() {
    let mut u = Universe::new();
    let before = u.cells().to_vec();
    u.toggle_cell(3, 5);
    let once = u.cells().to_vec();
    let idx = u.get_index(3, 5);
    assert_ne!(once[idx], before[idx]);
    for i in 0..before.len() {
        if i != idx {
            assert_eq!(once[i], before[i]);
        }
    }
    u.toggle_cell(3, 5);
    assert_eq!(u.cells(), &before[..]);
}

#[test]
fn cell_toggle_flips() {
    let mut c = Cell::Dead;
    c.toggle();
    assert_eq!(c, Cell::Alive);
    c.toggle();
    assert_eq!(c, Cell::Dead);
    assert_eq!(Cell::Alive.value(), 1);
    assert_eq!(Cell::Dead.value(), 0);
}

#[test]
fn median_from_max_tpf() {
    let mut u = Universe::new();
    u.set_max_tpf(10);
    assert_eq!(u.median_tpf(), Some(6));
    u.set_max_tpf(11);
    assert_eq!(u.median_tpf(), Some(6));
    u.set_max_tpf(0);
    assert_eq!(u.median_tpf(), Some(1));
    u.set_max_tpf(u32::MAX);
    assert_eq!(u.median_tpf(), Some(2147483648));
}

fn ticked(n: usize) -> Vec<Cell> {
    let mut u = Universe::new();
    for _ in 0..n {
        u.tick();
    }
    u.cells().to_vec()
}

#[test]
fn controller_without_rate_does_nothing() {
    let mut u = Universe::new();
    u.controller();
    u.controller();
    assert_eq!(u.cells(), &ticked(0)[..]);
    u.set_max_tpf(10);
    u.controller();
    assert_eq!(u.cells(), &ticked(0)[..]);
}

#[test]
fn neutral_rate_ticks_once_per_callback() {
    let mut u = Universe::new();
    u.set_max_tpf(10);
    u.update_tick_rate(6);
    for n in 1..=5 {
        u.controller();
        assert_eq!(u.cells(), &ticked(n)[..]);
    }
}

#[test]
fn accelerated_rate_ticks_several_per_callback() {
    let mut u = Universe::new();
    u.set_max_tpf(10);
    u.update_tick_rate(8);
    u.controller();
    assert_eq!(u.cells(), &ticked(3)[..]);
    u.controller();
    assert_eq!(u.cells(), &ticked(6)[..]);
}

#[test]
fn decelerated_rate_ticks_on_every_fourth_callback() {
    let mut u = Universe::new();
    u.set_max_tpf(10);
    u.update_tick_rate(3);
    for _ in 0..3 {
        u.controller();
        assert_eq!(u.cells(), &ticked(0)[..]);
    }
    u.controller();
    assert_eq!(u.cells(), &ticked(1)[..]);
    for _ in 0..3 {
        u.controller();
        assert_eq!(u.cells(), &ticked(1)[..]);
    }
    u.controller();
    assert_eq!(u.cells(), &ticked(2)[..]);
}

#[test]
fn rate_switch_restarts_frame_count() {
    let mut u = Universe::new();
    u.set_max_tpf(10);
    u.update_tick_rate(3);
    u.controller();
    u.controller();
    u.update_tick_rate(3);
    for _ in 0..3 {
        u.controller();
        assert_eq!(u.cells(), &ticked(0)[..]);
    }
    u.controller();
    assert_eq!(u.cells(), &ticked(1)[..]);
}

#[test]
fn new_max_tpf_waits_for_rate_update() {
    let mut u = Universe::new();
    u.set_max_tpf(10);
    u.update_tick_rate(6);
    u.set_max_tpf(2);
    u.controller();
    assert_eq!(u.cells(), &ticked(1)[..]);
    u.update_tick_rate(6);
    u.controller();
    assert_eq!(u.cells(), &ticked(1 + 5)[..]);
}

#[test]
fn identical_runs_stay_identical() {
    let mut a = Universe::new();
    let mut b = Universe::new();
    assert_eq!(a.cells(), b.cells());
    for u in [&mut a, &mut b] {
        u.toggle_cell(10, 20);
        u.set_max_tpf(8);
        u.update_tick_rate(7);
    }
    for _ in 0..4 {
        a.controller();
        b.controller();
        assert_eq!(a.cells(), b.cells());
        a.tick();
        b.tick();
        assert_eq!(a.cells(), b.cells());
    }
}

#[test]
fn render_draws_rows() {
    let u = grid(3, 2, &[(0, 0), (1, 2)]);
    let dead = "\u{25FB}\u{FE0F}";
    let alive = "\u{25FC}\u{FE0F}";
    let expected = format!("{a}{d}{d}\n{d}{d}{a}\n", a = alive, d = dead);
    assert_eq!(u.render(), expected);
    assert_eq!(u.render().chars().count(), 2 * 6 + 2);
}
