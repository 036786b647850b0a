use game_of_life::universe::next_cell_state;
use game_of_life::Cell;
use game_of_life::Universe;
use game_of_life::UniverseError;

/// Builds a universe of the given dimensions whose listed cells are alive
/// and whose remaining cells are dead.
fn universe_from(width: u32, height: u32, alive: &[(u32, u32)]) -> Universe {
    let mut cells = vec![Cell::Dead; (width as usize) * (height as usize)];
    for &(row, column) in alive {
        cells[(row * width + column) as usize] = Cell::Alive;
    }
    Universe::with_cells(width, height, cells).expect("dimensions match the buffer")
}

/// The coordinates of the live cells, in row-major order.
fn alive_coords(u: &Universe) -> Vec<(u32, u32)> {
    let mut out = Vec::new();
    let cells = u.get_cells();
    for row in 0..u.height() {
        for column in 0..u.width() {
            if cells[u.get_index(row, column)] == Cell::Alive {
                out.push((row, column));
            }
        }
    }
    out
}

#[test]
fn default_universe_dimensions_and_seed() {
    let u = Universe::new();
    assert_eq!(u.width(), 64);
    assert_eq!(u.height(), 64);
    assert_eq!(u.get_cells().len(), 64 * 64);
    assert_eq!(u.get_cells()[0], Cell::Alive);
    assert_eq!(u.get_cells()[1], Cell::Dead);
    assert_eq!(u.get_cells()[2], Cell::Dead);
    assert_eq!(u.get_cells()[3], Cell::Alive);
    assert_eq!(u.get_cells()[6], Cell::Alive);
}

#[test]
fn buffer_length_invariant_across_ticks() {
    let mut u = Universe::new();
    for _ in 0..5 {
        u.tick();
        assert_eq!(u.get_cells().len(), (u.width() as usize) * (u.height() as usize));
    }
}

#[test]
fn construction_rejects_wrong_length() {
    let cells = vec![Cell::Dead; 5];
    match Universe::with_cells(2, 3, cells) {
        Err(e) => assert_eq!(e, UniverseError::InvalidDimensions),
        Ok(_) => panic!("a 5-cell buffer must not make a 2x3 universe"),
    }
}

#[test]
fn construction_rejects_zero_dimensions() {
    match Universe::with_cells(0, 3, Vec::new()) {
        Err(e) => assert_eq!(e, UniverseError::InvalidDimensions),
        Ok(_) => panic!("zero width must be rejected"),
    }
    match Universe::with_cells(3, 0, Vec::new()) {
        Err(e) => assert_eq!(e, UniverseError::InvalidDimensions),
        Ok(_) => panic!("zero height must be rejected"),
    }
}

#[test]
fn construction_accepts_matching_buffer() {
    let u = universe_from(3, 2, &[(0, 0), (1, 2)]);
    assert_eq!(u.width(), 3);
    assert_eq!(u.height(), 2);
    assert_eq!(alive_coords(&u), vec![(0, 0), (1, 2)]);
}

#[test]
fn index_mapping_row_major() {
    let u = universe_from(8, 4, &[]);
    for row in 0..4u32 {
        for column in 0..8u32 {
            assert_eq!(u.get_index(row, column), (row * 8 + column) as usize);
        }
    }
}

#[test]
fn toroidal_neighbors_of_origin() {
    // All eight toroidal neighbors of (0, 0) on a 4x4 grid.
    let neighbors = [
        (3, 3),
        (3, 0),
        (3, 1),
        (0, 3),
        (0, 1),
        (1, 3),
        (1, 0),
        (1, 1),
    ];
    let u = universe_from(4, 4, &neighbors);
    assert_eq!(u.live_neighbor_count(0, 0), 8);

    // Each of them alone is seen exactly once from the origin.
    for coord in neighbors {
        let u = universe_from(4, 4, &[coord]);
        assert_eq!(u.live_neighbor_count(0, 0), 1);
    }

    // A cell that is not adjacent to the origin is not counted.
    let u = universe_from(4, 4, &[(2, 2)]);
    assert_eq!(u.live_neighbor_count(0, 0), 0);
}

#[test]
fn neighbor_count_excludes_the_cell_itself() {
    let u = universe_from(5, 5, &[(2, 2)]);
    assert_eq!(u.live_neighbor_count(2, 2), 0);
}

#[test]
fn block_still_life_is_stable() {
    let block = [(2, 2), (2, 3), (3, 2), (3, 3)];
    let mut u = universe_from(6, 6, &block);
    for _ in 0..4 {
        u.tick();
        assert_eq!(alive_coords(&u), block.to_vec());
    }
}

#[test]
fn blinker_oscillates_with_period_two() {
    let horizontal = [(2, 1), (2, 2), (2, 3)];
    let vertical = [(1, 2), (2, 2), (3, 2)];
    let mut u = universe_from(6, 6, &horizontal);
    u.tick();
    assert_eq!(alive_coords(&u), vertical.to_vec());
    u.tick();
    assert_eq!(alive_coords(&u), horizontal.to_vec());
}

#[test]
fn dead_cell_with_three_neighbors_is_born() {
    let mut u = universe_from(5, 5, &[(1, 1), (1, 2), (1, 3)]);
    u.tick();
    let center: usize = u.get_index(2, 2);
    assert_eq!(u.get_cells()[center], Cell::Alive);
}

#[test]
fn dead_cell_with_two_or_four_neighbors_stays_dead() {
    let mut u = universe_from(5, 5, &[(1, 1), (1, 2)]);
    u.tick();
    let center: usize = u.get_index(2, 2);
    assert_eq!(u.get_cells()[center], Cell::Dead);

    let mut u = universe_from(5, 5, &[(1, 1), (1, 2), (1, 3), (2, 1)]);
    u.tick();
    let center: usize = u.get_index(2, 2);
    assert_eq!(u.get_cells()[center], Cell::Dead);
}

#[test]
fn live_cell_death_and_survival() {
    // Zero live neighbors: dies of underpopulation.
    let mut u = universe_from(5, 5, &[(2, 2)]);
    u.tick();
    let idx: usize = u.get_index(2, 2);
    assert_eq!(u.get_cells()[idx], Cell::Dead);

    // One live neighbor: dies of underpopulation.
    let mut u = universe_from(5, 5, &[(2, 2), (1, 1)]);
    u.tick();
    let idx: usize = u.get_index(2, 2);
    assert_eq!(u.get_cells()[idx], Cell::Dead);

    // Two live neighbors: survives.
    let mut u = universe_from(5, 5, &[(2, 2), (1, 1), (1, 2)]);
    u.tick();
    let idx: usize = u.get_index(2, 2);
    assert_eq!(u.get_cells()[idx], Cell::Alive);

    // Three live neighbors: survives.
    let mut u = universe_from(5, 5, &[(2, 2), (1, 1), (1, 2), (1, 3)]);
    u.tick();
    let idx: usize = u.get_index(2, 2);
    assert_eq!(u.get_cells()[idx], Cell::Alive);

    // Four live neighbors: dies of overpopulation.
    let mut u = universe_from(5, 5, &[(2, 2), (1, 1), (1, 2), (1, 3), (2, 1)]);
    u.tick();
    let idx: usize = u.get_index(2, 2);
    assert_eq!(u.get_cells()[idx], Cell::Dead);
}

#[test]
fn transition_rule_by_cases() {
    assert_eq!(next_cell_state(Cell::Alive, 0), Cell::Dead);
    assert_eq!(next_cell_state(Cell::Alive, 1), Cell::Dead);
    assert_eq!(next_cell_state(Cell::Alive, 2), Cell::Alive);
    assert_eq!(next_cell_state(Cell::Alive, 3), Cell::Alive);
    assert_eq!(next_cell_state(Cell::Alive, 4), Cell::Dead);
    assert_eq!(next_cell_state(Cell::Alive, 8), Cell::Dead);
    assert_eq!(next_cell_state(Cell::Dead, 2), Cell::Dead);
    assert_eq!(next_cell_state(Cell::Dead, 3), Cell::Alive);
    assert_eq!(next_cell_state(Cell::Dead, 4), Cell::Dead);
}

#[test]
fn identical_universes_stay_identical() {
    let seed = [(0, 0), (0, 7), (1, 1), (2, 3), (3, 4), (4, 2), (5, 5), (7, 0), (7, 7)];
    let mut a = universe_from(8, 8, &seed);
    let mut b = universe_from(8, 8, &seed);
    for _ in 0..4 {
        a.tick();
        b.tick();
        assert_eq!(a.get_cells(), b.get_cells());
    }

    let mut c = Universe::new();
    let mut d = Universe::new();
    for _ in 0..3 {
        c.tick();
        d.tick();
        assert_eq!(c.get_cells(), d.get_cells());
    }
}
