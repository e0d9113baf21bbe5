use game_of_life::grid::GameGrid;
use game_of_life::positions::GridPosition;

fn live_cells(grid: &GameGrid) -> Vec<(usize, usize)> {
    let (rows, cols) = grid.get_shape();
    let mut live = Vec::new();
    for r in 0..rows {
        for c in 0..cols {
            if grid.get(r, c).unwrap() {
                live.push((r, c));
            }
        }
    }
    live
}

fn grid_with(rows: usize, cols: usize, cells: &[(usize, usize)]) -> GameGrid {
    let mut grid = GameGrid::new(rows, cols);
    for &(r, c) in cells {
        grid.switch_state_at(r, c).unwrap();
    }
    grid
}

#[test]
fn new_grid_is_all_dead() {
    let grid = GameGrid::new(3, 4);
    assert_eq!(grid.get_shape(), (3, 4));
    for r in 0..3 {
        for c in 0..4 {
            assert_eq!(grid.get(r, c), Some(false));
        }
    }
}

#[test]
fn get_and_toggle_out_of_bounds_report_failure() {
    let mut grid = GameGrid::new(2, 3);
    assert_eq!(grid.get(2, 0), None);
    assert_eq!(grid.get(0, 3), None);
    assert_eq!(grid.get(2, 3), None);
    assert_eq!(grid.get(100, 100), None);
    assert_eq!(grid.switch_state_at(2, 0), Err(()));
    assert_eq!(grid.switch_state_at(0, 3), Err(()));
    assert_eq!(grid.switch_state_at(7, 9), Err(()));
}

#[test]
fn get_and_toggle_in_range_succeed() {
    let mut grid = GameGrid::new(2, 3);
    for r in 0..2 {
        for c in 0..3 {
            assert!(grid.get(r, c).is_some());
            assert_eq!(grid.switch_state_at(r, c), Ok(()));
        }
    }
    for r in 0..2 {
        for c in 0..3 {
            assert_eq!(grid.get(r, c), Some(true));
        }
    }
}

#[test]
fn failed_toggle_has_no_side_effect() {
    let mut grid = grid_with(2, 2, &[(0, 1)]);
    assert_eq!(grid.switch_state_at(5, 5), Err(()));
    assert_eq!(live_cells(&grid), vec![(0, 1)]);
}

#[test]
fn toggling_twice_restores_the_cell() {
    let mut grid = GameGrid::new(4, 4);
    grid.switch_state_at(1, 2).unwrap();
    assert_eq!(grid.get(1, 2), Some(true));
    grid.switch_state_at(1, 2).unwrap();
    assert_eq!(grid.get(1, 2), Some(false));

    grid.switch_state_at(3, 3).unwrap();
    grid.switch_state_at(0, 0).unwrap();
    grid.switch_state_at(3, 3).unwrap();
    assert_eq!(grid.get(3, 3), Some(false));
    assert_eq!(grid.get(0, 0), Some(true));
}

#[test]
fn clear_kills_every_cell() {
    let mut grid = grid_with(3, 3, &[(0, 0), (1, 1), (2, 2), (0, 2)]);
    grid.clear();
    assert_eq!(grid.get_shape(), (3, 3));
    for r in 0..3 {
        for c in 0..3 {
            assert_eq!(grid.get(r, c), Some(false));
        }
    }
}

#[test]
fn block_is_a_still_life() {
    let block = [(1, 1), (1, 2), (2, 1), (2, 2)];
    let mut grid = grid_with(4, 4, &block);
    grid.next_generation();
    assert_eq!(live_cells(&grid), vec![(1, 1), (1, 2), (2, 1), (2, 2)]);
    grid.next_generation();
    assert_eq!(live_cells(&grid), vec![(1, 1), (1, 2), (2, 1), (2, 2)]);
}

#[test]
fn block_in_the_corner_is_still_a_still_life() {
    let block = [(0, 0), (0, 1), (1, 0), (1, 1)];
    let mut grid = grid_with(4, 4, &block);
    grid.next_generation();
    assert_eq!(live_cells(&grid), vec![(0, 0), (0, 1), (1, 0), (1, 1)]);
}

#[test]
fn blinker_oscillates_with_period_two() {
    let horizontal = [(2, 1), (2, 2), (2, 3)];
    let mut grid = grid_with(5, 5, &horizontal);
    grid.next_generation();
    assert_eq!(live_cells(&grid), vec![(1, 2), (2, 2), (3, 2)]);
    grid.next_generation();
    assert_eq!(live_cells(&grid), vec![(2, 1), (2, 2), (2, 3)]);
}

#[test]
fn lonely_cells_die() {
    let mut grid = grid_with(5, 5, &[(2, 2)]);
    grid.next_generation();
    assert_eq!(live_cells(&grid), Vec::<(usize, usize)>::new());

    let mut pair = grid_with(5, 5, &[(1, 1), (3, 3)]);
    pair.next_generation();
    assert_eq!(live_cells(&pair), Vec::<(usize, usize)>::new());
}

#[test]
fn exactly_three_neighbors_give_birth() {
    // Three cells in an L: the fourth corner of the square is born, the
    // diagonal pair survives, and the corner cell survives too: a block.
    let mut grid = grid_with(4, 4, &[(1, 1), (1, 2), (2, 1)]);
    grid.next_generation();
    assert_eq!(live_cells(&grid), vec![(1, 1), (1, 2), (2, 1), (2, 2)]);
}

#[test]
fn overcrowded_cells_die() {
    // A plus sign: the center has 4 neighbors and dies.
    let mut grid = grid_with(5, 5, &[(1, 2), (2, 1), (2, 2), (2, 3), (3, 2)]);
    grid.next_generation();
    assert_eq!(grid.get(2, 2), Some(false));
}

#[test]
fn border_does_not_wrap_around() {
    // A horizontal blinker along the top edge: the phase that would need the
    // row above is cut off, so only the cell below the center is born and
    // the center survives.
    let mut grid = grid_with(4, 4, &[(0, 0), (0, 1), (0, 2)]);
    grid.next_generation();
    assert_eq!(live_cells(&grid), vec![(0, 1), (1, 1)]);
}

#[test]
fn glider_translates_down_right_after_four_generations() {
    let glider = [(1, 2), (2, 3), (3, 1), (3, 2), (3, 3)];
    let mut grid = grid_with(10, 10, &glider);
    for _ in 0..4 {
        grid.next_generation();
    }
    let moved: Vec<(usize, usize)> = glider.iter().map(|&(r, c)| (r + 1, c + 1)).collect();
    assert_eq!(live_cells(&grid), moved);
}

#[test]
fn live_cells_come_out_in_row_major_order() {
    // Live cells at (row, col): (0,1), (1,1), (2,0), (2,2).
    let grid = grid_with(3, 3, &[(2, 2), (0, 1), (2, 0), (1, 1)]);
    // A grid position is (column, row).
    assert_eq!(
        grid.live_cells(),
        vec![
            GridPosition(1, 0),
            GridPosition(1, 1),
            GridPosition(0, 2),
            GridPosition(2, 2),
        ]
    );
}

#[test]
fn live_cells_of_a_dead_grid_is_empty() {
    let grid = GameGrid::new(2, 3);
    assert_eq!(grid.live_cells(), Vec::<GridPosition>::new());
}

#[test]
fn one_by_one_grid_works() {
    let mut grid = GameGrid::new(1, 1);
    grid.switch_state_at(0, 0).unwrap();
    assert_eq!(grid.get(0, 0), Some(true));
    grid.next_generation();
    assert_eq!(grid.get(0, 0), Some(false));
}
