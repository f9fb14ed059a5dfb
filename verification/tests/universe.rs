use game_of_life::{Cell, Universe};

fn grid_from_rows(rows: &[&str]) -> Universe {
    let height = rows.len() as u32;
    let width = if rows.is_empty() { 0 } else { rows[0].len() as u32 };
    let mut cells = Vec::new();
    for row in rows {
        assert_eq!(row.len() as u32, width);
        for mark in row.chars() {
            cells.push(if mark == '#' { Cell::Alive } else { Cell::Dead });
        }
    }
    Universe::from_cells(height, width, cells).unwrap()
}

fn rows_of(universe: &Universe) -> Vec<String> {
    let width = universe.width() as usize;
    let mut rows = Vec::new();
    for row in 0..universe.height() as usize {
        let mut text = String::new();
        for column in 0..width {
            let cell = universe.get_cells()[row * width + column];
            text.push(if cell == Cell::Alive { '#' } else { '.' });
        }
        rows.push(text);
    }
    rows
}

fn counts_of(universe: &Universe) -> Vec<Vec<u8>> {
    let mut counts = Vec::new();
    for row in 0..universe.height() {
        let mut line = Vec::new();
        for column in 0..universe.width() {
            line.push(universe.live_neighbor_count(row, column));
        }
        counts.push(line);
    }
    counts
}

#[test]
fn from_cells_takes_exactly_one_cell_for_each_position() {
    assert!(Universe::from_cells(2, 3, vec![Cell::Dead; 6]).is_some());
    assert!(Universe::from_cells(2, 3, vec![Cell::Dead; 5]).is_none());
    assert!(Universe::from_cells(2, 3, vec![Cell::Dead; 7]).is_none());
    assert!(Universe::from_cells(0, 3, Vec::new()).is_some());
    assert!(Universe::from_cells(3, 0, Vec::new()).is_some());
    assert!(Universe::from_cells(0, 0, vec![Cell::Alive]).is_none());
    assert!(Universe::from_cells(65536, 65536, Vec::new()).is_none());
}

#[test]
fn from_cells_keeps_shape_and_cells() {
    let cells = vec![Cell::Alive, Cell::Dead, Cell::Dead, Cell::Alive, Cell::Alive, Cell::Dead];
    let universe = Universe::from_cells(2, 3, cells.clone()).unwrap();
    assert_eq!(universe.height(), 2);
    assert_eq!(universe.width(), 3);
    assert_eq!(universe.get_cells(), cells.as_slice());
}

#[test]
fn index_is_row_major() {
    let universe = Universe::from_cells(4, 5, vec![Cell::Dead; 20]).unwrap();
    assert_eq!(universe.get_index(0, 0), 0);
    assert_eq!(universe.get_index(0, 4), 4);
    assert_eq!(universe.get_index(1, 0), 5);
    assert_eq!(universe.get_index(2, 3), 13);
    assert_eq!(universe.get_index(3, 4), 19);
}

#[test]
fn cells_length_is_the_area_before_and_after_ticks() {
    for (height, width) in [(1u32, 1u32), (1, 7), (7, 1), (3, 3), (4, 6), (16, 9)] {
        let mut universe = Universe::new(height, width);
        assert_eq!(universe.get_cells().len() as u32, height * width);
        for _ in 0..5 {
            universe.tick();
            assert_eq!(universe.height(), height);
            assert_eq!(universe.width(), width);
            assert_eq!(universe.get_cells().len() as u32, height * width);
        }
    }
}

#[test]
fn zero_area_universes_are_harmless() {
    for (height, width) in [(0u32, 0u32), (0, 4), (4, 0)] {
        let mut universe = Universe::new(height, width);
        assert!(universe.get_cells().is_empty());
        universe.tick();
        assert!(universe.get_cells().is_empty());
        assert_eq!(universe.height(), height);
        assert_eq!(universe.width(), width);
        let mut given = Universe::from_cells(height, width, Vec::new()).unwrap();
        given.tick();
        assert!(given.get_cells().is_empty());
    }
    assert_eq!(Universe::new(0, 4).render(), "");
    assert_eq!(Universe::new(0, 0).render(), "");
    assert_eq!(Universe::new(3, 0).render(), "\n\n\n");
}

#[test]
fn neighbor_count_is_at_most_eight() {
    let mut universe = Universe::new(12, 17);
    for _ in 0..4 {
        for row in 0..12 {
            for column in 0..17 {
                assert!(universe.live_neighbor_count(row, column) <= 8);
            }
        }
        universe.tick();
    }
    let full = Universe::from_cells(4, 4, vec![Cell::Alive; 16]).unwrap();
    assert_eq!(counts_of(&full), vec![vec![8u8; 4]; 4]);
}

#[test]
fn neighbor_count_leaves_the_cell_itself_out() {
    let universe = grid_from_rows(&[".....", ".###.", ".###.", ".###.", "....."]);
    assert_eq!(
        counts_of(&universe),
        vec![
            vec![1, 2, 3, 2, 1],
            vec![2, 3, 5, 3, 2],
            vec![3, 5, 8, 5, 3],
            vec![2, 3, 5, 3, 2],
            vec![1, 2, 3, 2, 1],
        ]
    );
}

#[test]
fn corners_are_neighbors_across_the_edges() {
    let bottom_right = grid_from_rows(&[".....", ".....", ".....", "....#"]);
    assert_eq!(bottom_right.live_neighbor_count(0, 0), 1);
    assert_eq!(bottom_right.live_neighbor_count(1, 1), 0);
    let bottom_left = grid_from_rows(&[".....", ".....", ".....", "#...."]);
    assert_eq!(bottom_left.live_neighbor_count(0, 4), 1);
    let top_right = grid_from_rows(&["....#", ".....", ".....", "....."]);
    assert_eq!(top_right.live_neighbor_count(3, 0), 1);
    let top_left = grid_from_rows(&["#....", ".....", ".....", "....."]);
    assert_eq!(top_left.live_neighbor_count(3, 4), 1);
    assert_eq!(
        counts_of(&top_left),
        vec![
            vec![0, 1, 0, 0, 1],
            vec![1, 1, 0, 0, 1],
            vec![0, 0, 0, 0, 0],
            vec![1, 1, 0, 0, 1],
        ]
    );
}

#[test]
fn edges_are_joined_to_the_opposite_edges() {
    // A cell in the top row is seen from the bottom row.
    let top = grid_from_rows(&["..#..", ".....", ".....", "....."]);
    assert_eq!(
        counts_of(&top),
        vec![
            vec![0, 1, 0, 1, 0],
            vec![0, 1, 1, 1, 0],
            vec![0, 0, 0, 0, 0],
            vec![0, 1, 1, 1, 0],
        ]
    );
    // A cell in the left column is seen from the right column.
    let left = grid_from_rows(&[".....", ".....", "#....", "....."]);
    assert_eq!(
        counts_of(&left),
        vec![
            vec![0, 0, 0, 0, 0],
            vec![1, 1, 0, 0, 1],
            vec![0, 1, 0, 0, 1],
            vec![1, 1, 0, 0, 1],
        ]
    );
}

#[test]
fn narrow_grids_meet_themselves() {
    // On a single cell every one of the eight neighbors is the cell itself.
    let single = Universe::from_cells(1, 1, vec![Cell::Alive]).unwrap();
    assert_eq!(single.live_neighbor_count(0, 0), 8);
    let single_dead = Universe::from_cells(1, 1, vec![Cell::Dead]).unwrap();
    assert_eq!(single_dead.live_neighbor_count(0, 0), 0);
    // On a single row the rows above and below are the row itself.
    let row = grid_from_rows(&["#...."]);
    assert_eq!(counts_of(&row), vec![vec![2, 3, 0, 0, 3]]);
    // On two columns the left and the right neighbor are the same cell.
    let pair = grid_from_rows(&["#.", "..", "..", ".."]);
    assert_eq!(counts_of(&pair), vec![vec![0, 2], vec![1, 2], vec![0, 0], vec![1, 2]]);
}

#[test]
fn all_dead_grid_stays_all_dead() {
    for (height, width) in [(1u32, 1u32), (1, 5), (5, 1), (2, 2), (3, 3), (8, 13)] {
        let area = (height * width) as usize;
        let mut universe = Universe::from_cells(height, width, vec![Cell::Dead; area]).unwrap();
        for _ in 0..3 {
            universe.tick();
            assert_eq!(universe.get_cells(), vec![Cell::Dead; area].as_slice());
        }
    }
}

#[test]
fn blinker_returns_after_two_ticks() {
    let mut universe = grid_from_rows(&[".....", ".....", ".###.", ".....", "....."]);
    universe.tick();
    assert_eq!(rows_of(&universe), vec![".....", "..#..", "..#..", "..#..", "....."]);
    universe.tick();
    assert_eq!(rows_of(&universe), vec![".....", ".....", ".###.", ".....", "....."]);
}

#[test]
fn block_is_still() {
    let mut universe = grid_from_rows(&["....", ".##.", ".##.", "...."]);
    universe.tick();
    assert_eq!(rows_of(&universe), vec!["....", ".##.", ".##.", "...."]);
}

#[test]
fn glider_moves_one_cell_diagonally_in_four_ticks() {
    let mut universe =
        grid_from_rows(&[".#....", "..#...", "###...", "......", "......", "......"]);
    for _ in 0..4 {
        universe.tick();
    }
    assert_eq!(
        rows_of(&universe),
        vec!["......", "..#...", "...#..", ".###..", "......", "......"]
    );
}

#[test]
fn isolated_cell_dies() {
    let mut universe = grid_from_rows(&[".....", ".....", "..#..", ".....", "....."]);
    assert_eq!(universe.live_neighbor_count(2, 2), 0);
    assert_eq!(universe.get_next_stage(2, 2), Cell::Dead);
    universe.tick();
    assert_eq!(universe.get_cells(), vec![Cell::Dead; 25].as_slice());
}

#[test]
fn crowded_cell_dies_and_its_neighbors_follow_the_rule() {
    let mut universe = grid_from_rows(&[".....", "..#..", ".###.", "..#..", "....."]);
    assert_eq!(universe.live_neighbor_count(2, 2), 4);
    universe.tick();
    assert_eq!(rows_of(&universe), vec![".....", ".###.", ".#.#.", ".###.", "....."]);
}

#[test]
fn three_neighbors_give_birth_whichever_they_are() {
    let around = [0usize, 1, 2, 3, 5, 6, 7, 8];
    let mut tried = 0;
    for a in 0..8 {
        for b in (a + 1)..8 {
            for c in (b + 1)..8 {
                let mut cells = vec![Cell::Dead; 9];
                cells[around[a]] = Cell::Alive;
                cells[around[b]] = Cell::Alive;
                cells[around[c]] = Cell::Alive;
                let mut universe = Universe::from_cells(3, 3, cells).unwrap();
                assert_eq!(universe.live_neighbor_count(1, 1), 3);
                assert_eq!(universe.get_next_stage(1, 1), Cell::Alive);
                universe.tick();
                assert_eq!(universe.get_cells()[4], Cell::Alive);
                tried += 1;
            }
        }
    }
    assert_eq!(tried, 56);
}

#[test]
fn two_or_four_neighbors_give_no_birth() {
    let two = grid_from_rows(&["#.#", "...", "..."]);
    assert_eq!(two.get_next_stage(1, 1), Cell::Dead);
    let four = grid_from_rows(&["#.#", "...", "#.#"]);
    assert_eq!(four.get_next_stage(1, 1), Cell::Dead);
}

#[test]
fn tick_reads_only_the_generation_before() {
    let mut universe = Universe::new(9, 14);
    for _ in 0..6 {
        let before = universe.get_cells().to_vec();
        let copy = Universe::from_cells(9, 14, before.clone()).unwrap();
        let mut expected = Vec::new();
        for row in 0..9 {
            for column in 0..14 {
                expected.push(copy.get_next_stage(row, column));
            }
        }
        universe.tick();
        assert_eq!(copy.get_cells(), before.as_slice());
        assert_eq!(universe.get_cells(), expected.as_slice());
    }
}

#[test]
fn tick_gives_the_same_generation_for_the_same_cells() {
    let seeded = Universe::new(10, 10);
    let mut first = Universe::from_cells(10, 10, seeded.get_cells().to_vec()).unwrap();
    let mut second = Universe::from_cells(10, 10, seeded.get_cells().to_vec()).unwrap();
    for _ in 0..8 {
        first.tick();
        second.tick();
        assert_eq!(first.get_cells(), second.get_cells());
    }
}

#[test]
fn next_stage_is_the_rule_on_state_and_count() {
    let universe = Universe::new(7, 11);
    for row in 0..7 {
        for column in 0..11 {
            let cell = universe.get_cells()[universe.get_index(row, column)];
            let count = universe.live_neighbor_count(row, column);
            assert_eq!(universe.get_next_stage(row, column), cell.next_state(count));
        }
    }
}

#[test]
fn render_writes_one_line_for_each_row() {
    let universe = grid_from_rows(&[".#.", "#.#"]);
    assert_eq!(
        universe.render(),
        "\u{25fb}\u{25fc}\u{25fb}\n\u{25fc}\u{25fb}\u{25fc}\n"
    );
    let single = Universe::from_cells(1, 1, vec![Cell::Alive]).unwrap();
    assert_eq!(single.render(), "\u{25fc}\n");
}

#[test]
fn render_follows_the_generations() {
    let mut universe = grid_from_rows(&["...", "###", "..."]);
    universe.tick();
    // On three rows the blinker meets itself across the edge and fills the grid.
    assert_eq!(
        universe.render(),
        "\u{25fc}\u{25fc}\u{25fc}\n\u{25fc}\u{25fc}\u{25fc}\n\u{25fc}\u{25fc}\u{25fc}\n"
    );
    universe.tick();
    assert_eq!(
        universe.render(),
        "\u{25fb}\u{25fb}\u{25fb}\n\u{25fb}\u{25fb}\u{25fb}\n\u{25fb}\u{25fb}\u{25fb}\n"
    );
}
