use torus_life::cell::Cell;
use torus_life::fraction::Fraction;
use torus_life::seeding::{seed, seed_cell, seed_cells, seed_from_draws};

const LIT: Cell = Cell { alive: true, brightness: 255 };
const DARK: Cell = Cell { alive: false, brightness: 0 };

fn half() -> Fraction {
    Fraction { numerator: 1, denominator: 2 }
}

#[test]
fn a_draw_above_the_density_starts_dead() {
    assert_eq!(seed_cell(0x8000_0001, &half()), DARK);
    assert_eq!(seed_cell(u32::MAX, &half()), DARK);
}

#[test]
fn a_draw_at_or_below_the_density_starts_alive() {
    assert_eq!(seed_cell(0, &half()), LIT);
    assert_eq!(seed_cell(0x7fff_ffff, &half()), LIT);
    assert_eq!(seed_cell(0x8000_0000, &half()), LIT);
}

#[test]
fn a_dense_start_leaves_few_cells_dead() {
    let dense = Fraction { numerator: 99, denominator: 100 };
    // 99 hundredths of 2^32 is 4252017623.04
    assert_eq!(seed_cell(4_252_017_623, &dense), LIT);
    assert_eq!(seed_cell(4_252_017_624, &dense), DARK);
    assert_eq!(seed_cell(0, &dense), LIT);
    assert_eq!(seed_cell(u32::MAX, &dense), DARK);
}

#[test]
fn seed_cells_makes_one_cell_for_each_draw() {
    let draws = vec![0, u32::MAX, 0x8000_0000, 0x8000_0001, 12345];
    assert_eq!(seed_cells(&draws, &half()), vec![LIT, DARK, LIT, DARK, LIT]);
    assert_eq!(seed_cells(&Vec::new(), &half()), Vec::<Cell>::new());
}

#[test]
fn seed_from_draws_fills_the_grid_row_by_row() {
    let draws = vec![0, u32::MAX, u32::MAX, 0, 0, u32::MAX];
    let grid = seed_from_draws(3, 2, &half(), &draws).unwrap();
    assert_eq!(grid.width(), 3);
    assert_eq!(grid.height(), 2);
    assert_eq!(grid.cells(), &vec![LIT, DARK, DARK, LIT, LIT, DARK]);
    assert_eq!(grid.cell(0, 1), LIT);
    assert_eq!(grid.cell(2, 1), DARK);
}

#[test]
fn seed_from_draws_refuses_draws_that_do_not_fit() {
    assert!(seed_from_draws(3, 2, &half(), &vec![0; 5]).is_none());
    assert!(seed_from_draws(3, 2, &half(), &vec![0; 7]).is_none());
    assert!(seed_from_draws(0, 2, &half(), &Vec::new()).is_none());
    assert!(seed_from_draws(3, 0, &half(), &Vec::new()).is_none());
}

#[test]
fn seed_makes_a_grid_of_the_size_asked_for() {
    let grid = seed(17, 9, &half());
    assert_eq!(grid.width(), 17);
    assert_eq!(grid.height(), 9);
    assert_eq!(grid.cells().len(), 17 * 9);
}

#[test]
fn seeded_cells_are_lit_or_dark() {
    let grid = seed(40, 30, &half());
    for cell in grid.cells() {
        assert!(*cell == LIT || *cell == DARK);
    }
}

#[test]
fn with_a_density_of_one_every_cell_starts_alive() {
    let grid = seed(20, 10, &Fraction { numerator: 1, denominator: 1 });
    assert_eq!(grid.cells(), &vec![LIT; 200]);
}

#[test]
fn with_a_density_of_a_half_about_half_the_cells_start_alive() {
    let grid = seed(64, 64, &half());
    let alive = grid.cells().iter().filter(|cell| cell.alive).count();
    assert!(alive > 1024, "only {} of 4096 cells started alive", alive);
    assert!(alive < 3072, "{} of 4096 cells started alive", alive);
}

#[test]
fn with_a_low_density_few_cells_start_alive() {
    let grid = seed(64, 64, &Fraction { numerator: 1, denominator: 100 });
    let alive = grid.cells().iter().filter(|cell| cell.alive).count();
    assert!(alive < 512, "{} of 4096 cells started alive", alive);
}

#[test]
fn two_seedings_differ() {
    let first = seed(32, 32, &half());
    let second = seed(32, 32, &half());
    assert_ne!(first.cells(), second.cells());
}
