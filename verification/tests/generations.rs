use game_of_life::{Cell, Universe};

fn grid(width: u32, height: u32, alive: &[(u32, u32)]) -> Universe {
    let mut cells = vec![Cell::Dead; (width * height) as usize];
    for &(x, y) in alive {
        cells[(x + y * width) as usize] = Cell::Alive;
    }
    Universe::from_cells(width, height, cells).unwrap_or_else(|e| panic!("{:?}", e))
}

fn alive(universe: &Universe) -> Vec<(u32, u32)> {
    let mut found = Vec::new();
    for y in 0..universe.height() {
        for x in 0..universe.width() {
            if universe.get(x, y) == Some(Cell::Alive) {
                found.push((x, y));
            }
        }
    }
    found
}

/// The next generation, computed one cell at a time from signed coordinates.
fn naive_step(width: u32, height: u32, cells: &[Cell]) -> Vec<Cell> {
    let w = width as i64;
    let h = height as i64;
    let mut next = Vec::with_capacity(cells.len());
    for y in 0..h {
        for x in 0..w {
            let mut n = 0;
            for dy in [-1i64, 0, 1] {
                for dx in [-1i64, 0, 1] {
                    if dx == 0 && dy == 0 {
                        continue;
                    }
                    let nx = (x + dx).rem_euclid(w);
                    let ny = (y + dy).rem_euclid(h);
                    if cells[(nx + ny * w) as usize] == Cell::Alive {
                        n += 1;
                    }
                }
            }
            let here = cells[(x + y * w) as usize];
            let cell = match (here, n) {
                (Cell::Alive, 2) | (Cell::Alive, 3) => Cell::Alive,
                (Cell::Dead, 3) => Cell::Alive,
                _ => Cell::Dead,
            };
            next.push(cell);
        }
    }
    next
}

#[test]
fn a_block_is_unchanged_by_any_number_of_ticks() {
    let block = [(2, 2), (3, 2), (2, 3), (3, 3)];
    let mut universe = grid(6, 6, &block);
    let before = universe.render();
    for generation in 1..=10 {
        universe.tick();
        assert_eq!(alive(&universe), block.to_vec(), "generation {}", generation);
        assert_eq!(universe.render(), before);
    }
}

#[test]
fn a_block_is_stable_on_a_4_by_4_grid() {
    let block = [(1, 1), (2, 1), (1, 2), (2, 2)];
    let mut universe = grid(4, 4, &block);
    for _ in 0..5 {
        universe.tick();
        assert_eq!(alive(&universe), block.to_vec());
    }
}

#[test]
fn a_block_across_the_corner_is_stable() {
    let block = [(0, 0), (5, 0), (0, 4), (5, 4)];
    let mut universe = grid(6, 5, &block);
    for _ in 0..5 {
        universe.tick();
        assert_eq!(alive(&universe), block.to_vec());
    }
}

#[test]
fn a_block_is_stable_on_a_3_by_3_grid() {
    let block = [(0, 0), (1, 0), (0, 1), (1, 1)];
    let mut universe = grid(3, 3, &block);
    for _ in 0..5 {
        universe.tick();
        assert_eq!(alive(&universe), block.to_vec());
    }
}

#[test]
fn a_block_that_fills_the_width_is_not_still() {
    // On two columns the block is its own neighbour to the west and east:
    // each of its cells has five live neighbours and dies, and each cell of
    // the rows above and below has three and comes alive.
    let mut universe = grid(2, 4, &[(0, 1), (1, 1), (0, 2), (1, 2)]);
    assert_eq!(universe.live_neighbor_count(0, 1), 5);
    assert_eq!(universe.live_neighbor_count(0, 0), 3);
    universe.tick();
    assert_eq!(alive(&universe), vec![(0, 0), (1, 0), (0, 3), (1, 3)]);
}

#[test]
fn a_blinker_turns_after_one_tick_and_returns_after_two() {
    let horizontal = [(1, 2), (2, 2), (3, 2)];
    let vertical = [(2, 1), (2, 2), (2, 3)];
    let mut universe = grid(5, 5, &horizontal);
    universe.tick();
    assert_eq!(alive(&universe), vertical.to_vec());
    universe.tick();
    assert_eq!(alive(&universe), horizontal.to_vec());
    universe.tick();
    assert_eq!(alive(&universe), vertical.to_vec());
    universe.tick();
    assert_eq!(alive(&universe), horizontal.to_vec());
}

#[test]
fn a_vertical_blinker_turns_after_one_tick_and_returns_after_two() {
    let horizontal = [(1, 2), (2, 2), (3, 2)];
    let vertical = [(2, 1), (2, 2), (2, 3)];
    let mut universe = grid(5, 5, &vertical);
    universe.tick();
    assert_eq!(alive(&universe), horizontal.to_vec());
    universe.tick();
    assert_eq!(alive(&universe), vertical.to_vec());
}

#[test]
fn a_blinker_oscillates_on_a_4_by_4_grid() {
    let horizontal = [(0, 1), (1, 1), (2, 1)];
    let vertical = [(1, 0), (1, 1), (1, 2)];
    let mut universe = grid(4, 4, &horizontal);
    universe.tick();
    assert_eq!(alive(&universe), vertical.to_vec());
    universe.tick();
    assert_eq!(alive(&universe), horizontal.to_vec());
}

#[test]
fn a_blinker_across_the_edge_oscillates() {
    // Middle cell at (0, 0): the row reaches over the left edge, the column
    // over the top edge.
    let horizontal = [(0, 0), (1, 0), (5, 0)];
    let vertical = [(0, 0), (0, 1), (0, 4)];
    let mut universe = grid(6, 5, &horizontal);
    universe.tick();
    assert_eq!(alive(&universe), vertical.to_vec());
    universe.tick();
    assert_eq!(alive(&universe), horizontal.to_vec());
}

#[test]
fn a_blinker_on_three_columns_does_not_oscillate() {
    // The row is a ring around the torus: every cell of it keeps two live
    // neighbours, and the rows above and below come alive.
    let mut universe = grid(3, 5, &[(0, 2), (1, 2), (2, 2)]);
    universe.tick();
    assert_eq!(
        alive(&universe),
        vec![(0, 1), (1, 1), (2, 1), (0, 2), (1, 2), (2, 2), (0, 3), (1, 3), (2, 3)]
    );
}

#[test]
fn an_all_dead_grid_stays_all_dead() {
    let sizes: [(u32, u32); 5] = [(1, 1), (2, 2), (3, 7), (8, 8), (64, 64)];
    for (width, height) in sizes {
        let mut universe = grid(width, height, &[]);
        for _ in 0..3 {
            universe.tick();
            assert!(universe.cells().iter().all(|c| *c == Cell::Dead));
        }
    }
}

#[test]
fn a_lone_cell_dies() {
    let mut universe = grid(5, 5, &[(2, 2)]);
    universe.tick();
    assert_eq!(alive(&universe), Vec::new());
}

#[test]
fn a_single_cell_grid_dies_of_overpopulation() {
    let mut universe = grid(1, 1, &[(0, 0)]);
    universe.tick();
    assert_eq!(universe.cells(), &[Cell::Dead]);
}

#[test]
fn three_cells_in_a_corner_give_birth_to_the_fourth() {
    let mut universe = grid(5, 5, &[(1, 1), (2, 1), (1, 2)]);
    universe.tick();
    assert_eq!(alive(&universe), vec![(1, 1), (2, 1), (1, 2), (2, 2)]);
}

#[test]
fn a_tick_reads_only_the_generation_before_it() {
    // Were the cells updated in place from the top left, (1, 0) would
    // already be dead when (2, 0) counts its neighbours, and (1, 1) would be
    // born from cells that are only now coming alive.
    let mut universe = grid(5, 5, &[(0, 0), (1, 0), (2, 0)]);
    universe.tick();
    assert_eq!(alive(&universe), vec![(1, 0), (1, 1), (1, 4)]);
}

#[test]
fn a_glider_moves_by_one_cell_in_four_ticks() {
    let glider = [(1, 0), (2, 1), (0, 2), (1, 2), (2, 2)];
    let mut universe = grid(8, 8, &glider);
    universe.tick();
    assert_eq!(alive(&universe), vec![(0, 1), (2, 1), (1, 2), (2, 2), (1, 3)]);
    universe.tick();
    universe.tick();
    universe.tick();
    assert_eq!(alive(&universe), vec![(2, 1), (3, 2), (1, 3), (2, 3), (3, 3)]);
}

#[test]
fn a_glider_crosses_the_edges_and_comes_back() {
    let glider = [(1, 0), (2, 1), (0, 2), (1, 2), (2, 2)];
    let mut universe = grid(6, 6, &glider);
    // 4 ticks move it by (1, 1); 24 ticks move it once around the torus.
    for _ in 0..24 {
        universe.tick();
    }
    let mut expected = glider.to_vec();
    expected.sort_by_key(|&(x, y)| (y, x));
    assert_eq!(alive(&universe), expected);
}

#[test]
fn a_tick_keeps_the_dimensions() {
    let mut universe = Universe::create(7, 3).unwrap_or_else(|e| panic!("{:?}", e));
    for _ in 0..4 {
        universe.tick();
        assert_eq!(universe.width(), 7);
        assert_eq!(universe.height(), 3);
        assert_eq!(universe.cells().len(), 21);
    }
}

#[test]
fn the_default_grid_evolves_as_the_rule_says() {
    let mut universe = Universe::new();
    let mut expected = universe.cells().to_vec();
    for generation in 1..=8 {
        expected = naive_step(64, 64, &expected);
        universe.tick();
        assert_eq!(universe.cells(), &expected[..], "generation {}", generation);
    }
}

#[test]
fn small_seeded_grids_evolve_as_the_rule_says() {
    let sizes: [(u32, u32); 7] = [(1, 1), (1, 5), (5, 1), (2, 2), (2, 7), (3, 3), (9, 4)];
    for (width, height) in sizes {
        let mut universe = Universe::create(width, height).unwrap_or_else(|e| panic!("{:?}", e));
        let mut expected = universe.cells().to_vec();
        for generation in 1..=6 {
            expected = naive_step(width, height, &expected);
            universe.tick();
            assert_eq!(
                universe.cells(),
                &expected[..],
                "{} by {}, generation {}",
                width,
                height,
                generation
            );
        }
    }
}

#[test]
fn the_first_tick_of_a_3_by_3_seeded_grid() {
    // Seeded: indices 0, 2, 4, 6, 7, 8 are alive.
    //   A D A
    //   D A D
    //   A A A
    // On a 3 by 3 torus every cell has all the others as neighbours, so each
    // live cell has 5 live neighbours and each dead cell has 6: all die.
    let mut universe = Universe::create(3, 3).unwrap_or_else(|e| panic!("{:?}", e));
    let a = Cell::Alive;
    let d = Cell::Dead;
    assert_eq!(universe.cells(), &[a, d, a, d, a, d, a, a, a]);
    assert_eq!(universe.live_neighbor_count(1, 1), 5);
    assert_eq!(universe.live_neighbor_count(1, 0), 6);
    universe.tick();
    assert_eq!(universe.cells(), &[d; 9]);
}
