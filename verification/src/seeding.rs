//! Filling a fresh grid at random.
//!
//! Each cell gets a draw of its own, one of 2^32 equally likely values, which
//! stands for the point `draw / 2^32` of the unit interval. The cell starts
//! dead where that point lies above the density, and alive at full brightness
//! where it does not.

use crate::cell::{Cell, FULL_BRIGHTNESS};
use crate::fraction::Fraction;
use crate::grid::{Grid, GridView};
use vstd::prelude::*;

verus! {

/// One draw from the thread's random number generator.
///
/// Calls `rand::random::<u32>()`, which hands out the next 32 bits of the
/// generator that `rand` keeps for each thread, spread evenly over all of
/// `u32`. Nothing is claimed of the value: two calls may differ. The
/// generator is seeded from the operating system when a thread first uses
/// it, and `rand` panics if that fails.
#[verifier::external_body]
fn random_draw() -> u32 {
    rand::random::<u32>()
}

/// The cell that a draw makes under a density.
pub open spec fn seeded_cell(draw: u32, density: Fraction) -> Cell {
    if density.exceeded_by(draw) {
        Cell::dark()
    } else {
        Cell::lit()
    }
}

/// The cells that a sequence of draws makes under a density, one for each.
pub open spec fn seeded_cells(draws: Seq<u32>, density: Fraction) -> Seq<Cell> {
    Seq::new(draws.len(), |i: int| seeded_cell(draws[i], density))
}

/// Makes the cell that a draw stands for under a density.
pub fn seed_cell(draw: u32, density: &Fraction) -> (cell: Cell)
    ensures
        cell == seeded_cell(draw, *density),
{
    if density.is_exceeded_by(draw) {
        Cell { alive: false, brightness: 0 }
    } else {
        Cell { alive: true, brightness: FULL_BRIGHTNESS }
    }
}

/// Makes the cells that the draws stand for under a density, one for each.
pub fn seed_cells(draws: &Vec<u32>, density: &Fraction) -> (cells: Vec<Cell>)
    ensures
        cells@ == seeded_cells(draws@, *density),
{
    let count: usize = draws.len();
    let mut cells: Vec<Cell> = Vec::new();
    let mut i: usize = 0;
    while i < count
        invariant
            count == draws@.len(),
            i <= count,
            cells@.len() == i,
            forall|j: int| 0 <= j < i ==> cells@[j] == seeded_cell(draws@[j], *density),
        decreases count - i,
    {
        cells.push(seed_cell(draws[i], density));
        i = i + 1;
    }
    proof {
        assert(cells@ =~= seeded_cells(draws@, *density));
    }
    cells
}

/// Makes the grid of `width` by `height` that the draws stand for under a
/// density, the draws given row by row. There is no such grid when a
/// dimension is zero or the number of draws is not `width * height`.
pub fn seed_from_draws(width: usize, height: usize, density: &Fraction, draws: &Vec<u32>) -> (made:
    Option<Grid>)
    ensures
        made is Some <==> 0 < width && 0 < height && draws@.len() == width * height,
        made is Some ==> made->0.wf() && made->0@ == (GridView {
            width: width as nat,
            height: height as nat,
            cells: seeded_cells(draws@, *density),
        }),
{
    Grid::from_cells(width, height, seed_cells(draws, density))
}

/// Takes `count` draws from the random number generator.
fn draw_many(count: usize) -> (draws: Vec<u32>)
    ensures
        draws@.len() == count,
{
    let mut draws: Vec<u32> = Vec::new();
    let mut i: usize = 0;
    while i < count
        invariant
            i <= count,
            draws@.len() == i,
        decreases count - i,
    {
        draws.push(random_draw());
        i = i + 1;
    }
    draws
}

/// Makes a grid of `width` by `height` at random: each cell starts alive and
/// fully bright, or dead and dark, by a draw of its own. With a density of
/// one every cell starts alive.
pub fn seed(width: usize, height: usize, density: &Fraction) -> (grid: Grid)
    requires
        0 < width,
        0 < height,
        width * height <= usize::MAX,
        density.wf(),
    ensures
        grid.wf(),
        grid@.width == width,
        grid@.height == height,
        exists|draws: Seq<u32>| #[trigger] seeded_cells(draws, *density) == grid@.cells,
        forall|i: int| 0 <= i < grid@.cells.len() ==> (#[trigger] grid@.cells[i]).is_fresh(),
        !density.is_proper() ==> forall|i: int|
            0 <= i < grid@.cells.len() ==> #[trigger] grid@.cells[i] == Cell::lit(),
{
    let draws: Vec<u32> = draw_many(width * height);
    let cells: Vec<Cell> = seed_cells(&draws, density);
    proof {
        assert forall|i: int| 0 <= i < cells@.len() && !density.is_proper() implies cells@[i]
            == Cell::lit() by {
            lemma_full_density_seeds_alive(draws@[i], *density);
        }
    }
    Grid::assemble(width, height, cells)
}

/// No draw lies above a density of one.
pub proof fn lemma_full_density_seeds_alive(draw: u32, density: Fraction)
    requires
        density.wf(),
        !density.is_proper(),
    ensures
        seeded_cell(draw, density) == Cell::lit(),
{
    let d = density.denominator as int;
    assert(draw * d <= d * 0x1_0000_0000) by (nonlinear_arith)
        requires
            0 <= draw < 0x1_0000_0000,
            0 < d,
    ;
}

} // verus!
