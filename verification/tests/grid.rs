use torus_life::cell::Cell;
use torus_life::grid::{step_back, step_forth, Grid};

fn dead(brightness: u8) -> Cell {
    Cell { alive: false, brightness }
}

fn alive() -> Cell {
    Cell { alive: true, brightness: 255 }
}

fn grid_with_alive(width: usize, height: usize, living: &[(usize, usize)]) -> Grid {
    let mut cells = vec![dead(0); width * height];
    for &(x, y) in living {
        cells[y * width + x] = alive();
    }
    Grid::from_cells(width, height, cells).unwrap()
}

#[test]
fn from_cells_keeps_dimensions_and_cells() {
    let cells: Vec<Cell> = (0..6).map(|i| dead(i as u8)).collect();
    let grid = Grid::from_cells(3, 2, cells.clone()).unwrap();
    assert_eq!(grid.width(), 3);
    assert_eq!(grid.height(), 2);
    assert_eq!(grid.cells(), &cells);
}

#[test]
fn from_cells_refuses_a_zero_dimension() {
    assert!(Grid::from_cells(0, 3, vec![]).is_none());
    assert!(Grid::from_cells(3, 0, vec![]).is_none());
    assert!(Grid::from_cells(0, 0, vec![]).is_none());
}

#[test]
fn from_cells_refuses_the_wrong_number_of_cells() {
    assert!(Grid::from_cells(2, 2, vec![dead(0); 3]).is_none());
    assert!(Grid::from_cells(2, 2, vec![dead(0); 5]).is_none());
    assert!(Grid::from_cells(2, 2, vec![]).is_none());
    assert!(Grid::from_cells(2, 2, vec![dead(0); 4]).is_some());
}

#[test]
fn from_cells_refuses_dimensions_too_large_to_count() {
    assert!(Grid::from_cells(usize::MAX, 2, vec![dead(0); 4]).is_none());
    assert!(Grid::from_cells(usize::MAX, usize::MAX, vec![dead(0)]).is_none());
}

#[test]
fn cells_are_kept_row_by_row() {
    let cells: Vec<Cell> = (0..12).map(|i| dead(i as u8)).collect();
    let grid = Grid::from_cells(4, 3, cells).unwrap();
    for y in 0..3 {
        for x in 0..4 {
            assert_eq!(grid.cell(x, y), dead((y * 4 + x) as u8));
            assert_eq!(grid.get(x, y), Some(dead((y * 4 + x) as u8)));
        }
    }
}

#[test]
fn get_finds_nothing_outside_the_grid() {
    let grid = Grid::from_cells(4, 3, vec![dead(0); 12]).unwrap();
    assert_eq!(grid.get(4, 0), None);
    assert_eq!(grid.get(0, 3), None);
    assert_eq!(grid.get(4, 3), None);
    assert_eq!(grid.get(usize::MAX, usize::MAX), None);
    assert_eq!(grid.get(3, 2), Some(dead(0)));
}

#[test]
fn steps_wrap_at_both_ends() {
    assert_eq!(step_back(0, 640), 639);
    assert_eq!(step_back(1, 640), 0);
    assert_eq!(step_back(639, 640), 638);
    assert_eq!(step_forth(639, 640), 0);
    assert_eq!(step_forth(0, 640), 1);
    assert_eq!(step_forth(638, 640), 639);
}

#[test]
fn steps_on_a_ring_of_one_stay_in_place() {
    assert_eq!(step_back(0, 1), 0);
    assert_eq!(step_forth(0, 1), 0);
}

#[test]
fn steps_back_and_forth_undo_each_other() {
    for limit in 1..20usize {
        for index in 0..limit {
            assert_eq!(step_forth(step_back(index, limit), limit), index);
            assert_eq!(step_back(step_forth(index, limit), limit), index);
        }
    }
}

#[test]
fn first_cell_has_the_last_as_its_upper_left_neighbour() {
    let grid = grid_with_alive(7, 5, &[(6, 4)]);
    assert_eq!(grid.alive_neighbors(0, 0), 1);
    assert_eq!(grid.cell(step_back(0, 7), step_back(0, 5)), alive());
    for y in 0..5 {
        for x in 0..7 {
            let near = (x == 0 || x >= 5) && (y == 0 || y >= 3);
            let expected = if near && (x, y) != (6, 4) { 1 } else { 0 };
            assert_eq!(grid.alive_neighbors(x, y), expected);
        }
    }
}

#[test]
fn last_cell_has_the_first_as_its_lower_right_neighbour() {
    let grid = grid_with_alive(7, 5, &[(0, 0)]);
    assert_eq!(grid.alive_neighbors(6, 4), 1);
    assert_eq!(grid.cell(step_forth(6, 7), step_forth(4, 5)), alive());
}

#[test]
fn neighbours_are_counted_in_all_eight_directions() {
    let around = [(1, 1), (2, 1), (3, 1), (1, 2), (3, 2), (1, 3), (2, 3), (3, 3)];
    for count in 0..=8usize {
        let grid = grid_with_alive(5, 5, &around[..count]);
        assert_eq!(grid.alive_neighbors(2, 2), count as u8);
    }
}

#[test]
fn a_cell_is_not_its_own_neighbour() {
    let grid = grid_with_alive(5, 5, &[(2, 2)]);
    assert_eq!(grid.alive_neighbors(2, 2), 0);
    assert_eq!(grid.alive_neighbors(1, 1), 1);
}

#[test]
fn a_full_grid_has_eight_living_neighbours_everywhere() {
    let grid = Grid::from_cells(4, 3, vec![alive(); 12]).unwrap();
    for y in 0..3 {
        for x in 0..4 {
            assert_eq!(grid.alive_neighbors(x, y), 8);
        }
    }
}

#[test]
fn on_a_grid_of_one_cell_the_cell_is_all_its_neighbours() {
    let grid = Grid::from_cells(1, 1, vec![alive()]).unwrap();
    assert_eq!(grid.alive_neighbors(0, 0), 8);
    let grid = Grid::from_cells(1, 1, vec![dead(0)]).unwrap();
    assert_eq!(grid.alive_neighbors(0, 0), 0);
}

#[test]
fn on_a_narrow_grid_a_neighbour_counts_once_for_each_direction() {
    let grid = grid_with_alive(2, 2, &[(0, 0)]);
    assert_eq!(grid.alive_neighbors(0, 0), 0);
    assert_eq!(grid.alive_neighbors(1, 0), 2);
    assert_eq!(grid.alive_neighbors(0, 1), 2);
    assert_eq!(grid.alive_neighbors(1, 1), 4);
}

#[test]
fn brightness_does_not_count_as_life() {
    let grid = Grid::from_cells(3, 3, vec![dead(255); 9]).unwrap();
    assert_eq!(grid.alive_neighbors(1, 1), 0);
}
