//! The rule by which one generation follows another.
//!
//! Every cell of the next generation is decided by the cell at the same
//! position and its eight neighbours in the generation before, and by nothing
//! else: the next grid is built beside the old one, which is only read.

use crate::cell::{Cell, FULL_BRIGHTNESS};
use crate::fraction::Fraction;
use crate::grid::{Grid, GridView};
use vstd::prelude::*;

verus! {

/// The two numbers that tune the rule.
#[derive(Clone, Copy, Debug, PartialEq, Eq, Structural)]
pub struct Rules {
    /// The number of living neighbours at which a dead cell comes alive, and
    /// the most a living cell bears. A living cell needs one less at least.
    pub neighbor_limit: u8,
    /// What is left of a dead cell's brightness after one generation.
    pub decay: Fraction,
}

impl Rules {
    /// Rules are well formed when the decay is a fraction of one.
    pub open spec fn wf(self) -> bool {
        self.decay.wf()
    }

    /// Tells whether the rules are well formed.
    pub fn is_valid(&self) -> (ok: bool)
        ensures
            ok == self.wf(),
    {
        self.decay.is_valid()
    }
}

/// Whether a cell is alive in the next generation: a living cell stays alive
/// with `limit - 1` or `limit` living neighbours, a dead cell comes alive with
/// exactly `limit`.
pub open spec fn lives_on(alive: bool, neighbors: int, limit: int) -> bool {
    if alive {
        limit - 1 <= neighbors <= limit
    } else {
        neighbors == limit
    }
}

/// The cell that follows `cell` when `neighbors` of the cells around it are
/// alive. A cell that lives is fully bright; one that does not keeps the
/// decayed part of its brightness.
pub open spec fn next_cell(cell: Cell, neighbors: int, rules: Rules) -> Cell {
    if lives_on(cell.alive, neighbors, rules.neighbor_limit as int) {
        Cell::lit()
    } else {
        Cell { alive: false, brightness: rules.decay.of(cell.brightness as int) as u8 }
    }
}

/// The generation that follows `grid`.
pub open spec fn next_generation(grid: GridView, rules: Rules) -> GridView {
    GridView {
        width: grid.width,
        height: grid.height,
        cells: Seq::new(
            grid.cells.len(),
            |i: int|
                next_cell(
                    grid.cells[i],
                    grid.alive_neighbors(i % (grid.width as int), i / (grid.width as int)) as int,
                    rules,
                ),
        ),
    }
}

/// Whether one of the first `count` cells is alive in one sequence and dead
/// in the other.
pub open spec fn alive_differs_within(before: Seq<Cell>, after: Seq<Cell>, count: int) -> bool {
    exists|i: int| 0 <= i < count && (#[trigger] before[i]).alive != after[i].alive
}

/// Whether any cell is alive in one grid and dead in the other.
pub open spec fn alive_differs(before: GridView, after: GridView) -> bool {
    alive_differs_within(before.cells, after.cells, before.cells.len() as int)
}

/// What holds of a grid, the grid that `calculate_state` makes of it, and the
/// flag returned with it.
pub open spec fn steps_to(before: GridView, rules: Rules, after: GridView, changed: bool) -> bool {
    after == next_generation(before, rules) && changed == alive_differs(before, after)
}

/// Decides what becomes of one cell with `neighbors` living cells around it.
pub fn step_cell(cell: Cell, neighbors: u8, rules: &Rules) -> (next: Cell)
    requires
        rules.wf(),
    ensures
        next == next_cell(cell, neighbors as int, *rules),
{
    let limit: u8 = rules.neighbor_limit;
    let lives: bool = if cell.alive {
        // neither too few neighbours nor too many
        (limit as u16) <= (neighbors as u16) + 1 && neighbors <= limit
    } else {
        neighbors == limit
    };
    if lives {
        Cell { alive: true, brightness: FULL_BRIGHTNESS }
    } else {
        Cell { alive: false, brightness: rules.decay.scale(cell.brightness) }
    }
}

/// Computes the generation that follows `grid`, and tells whether any cell
/// came alive or died on the way.
pub fn calculate_state(grid: &Grid, rules: &Rules) -> (result: (Grid, bool))
    requires
        grid.wf(),
        rules.wf(),
    ensures
        result.0.wf(),
        result.0@ == next_generation(grid@, *rules),
        result.1 == alive_differs(grid@, result.0@),
        steps_to(grid@, *rules, result.0@, result.1),
{
    let width: usize = grid.width();
    let height: usize = grid.height();
    let ghost next = next_generation(grid@, *rules);
    let mut cells: Vec<Cell> = Vec::new();
    let mut has_changes: bool = false;
    let mut y: usize = 0;
    while y < height
        invariant
            grid.wf(),
            rules.wf(),
            width == grid@.width,
            height == grid@.height,
            next == next_generation(grid@, *rules),
            y <= height,
            cells@.len() == y * width,
            forall|i: int| 0 <= i < cells@.len() ==> cells@[i] == next.cells[i],
            has_changes == alive_differs_within(grid@.cells, cells@, cells@.len() as int),
        decreases height - y,
    {
        let mut x: usize = 0;
        while x < width
            invariant
                grid.wf(),
                rules.wf(),
                width == grid@.width,
                height == grid@.height,
                next == next_generation(grid@, *rules),
                y < height,
                x <= width,
                cells@.len() == y * width + x,
                forall|i: int| 0 <= i < cells@.len() ==> cells@[i] == next.cells[i],
                has_changes == alive_differs_within(grid@.cells, cells@, cells@.len() as int),
            decreases width - x,
        {
            proof {
                grid@.lemma_index_of_position(x as int, y as int);
            }
            let current: Cell = grid.cell(x, y);
            let neighbors: u8 = grid.alive_neighbors(x, y);
            let following: Cell = step_cell(current, neighbors, rules);
            cells.push(following);
            if following.alive != current.alive {
                has_changes = true;
            }
            x = x + 1;
        }
        proof {
            assert(y * width + width == (y + 1) * width) by (nonlinear_arith);
        }
        y = y + 1;
    }
    proof {
        assert(height * width == width * height) by (nonlinear_arith);
        assert(cells@ =~= next.cells);
    }
    let after: Grid = Grid::assemble(width, height, cells);
    (after, has_changes)
}

/// In the next generation the cell at `(x, y)` is what the rule makes of the
/// cell at `(x, y)` and its living neighbours in this one, and the grid keeps
/// its dimensions.
pub proof fn lemma_next_generation_at(grid: GridView, rules: Rules, x: int, y: int)
    requires
        grid.wf(),
        grid.contains(x, y),
    ensures
        next_generation(grid, rules).wf(),
        next_generation(grid, rules).width == grid.width,
        next_generation(grid, rules).height == grid.height,
        next_generation(grid, rules).at(x, y) == next_cell(
            grid.at(x, y),
            grid.alive_neighbors(x, y) as int,
            rules,
        ),
{
    grid.lemma_index_of_position(x, y);
}

/// With a limit of three, a living cell stays alive with two or three living
/// neighbours and dies with any other number, and a dead cell comes alive
/// with exactly three and stays dead with any other number.
pub proof fn lemma_rule_partition(cell: Cell, neighbors: int, rules: Rules)
    requires
        rules.neighbor_limit == 3,
        0 <= neighbors <= 8,
    ensures
        cell.alive ==> (next_cell(cell, neighbors, rules).alive <==> neighbors == 2 || neighbors
            == 3),
        !cell.alive ==> (next_cell(cell, neighbors, rules).alive <==> neighbors == 3),
{
}

/// After a step every living cell of the grid is fully bright, and every
/// dead cell has the decayed part of the brightness it had before, rounded
/// down, which is never more than it had.
pub proof fn lemma_brightness_after_generation(grid: GridView, rules: Rules, index: int)
    requires
        grid.wf(),
        rules.wf(),
        0 <= index < grid.cells.len(),
    ensures
        next_generation(grid, rules).cells[index].alive ==> next_generation(
            grid,
            rules,
        ).cells[index].brightness == FULL_BRIGHTNESS,
        !next_generation(grid, rules).cells[index].alive ==> next_generation(
            grid,
            rules,
        ).cells[index].brightness == rules.decay.of(grid.cells[index].brightness as int)
            && next_generation(grid, rules).cells[index].brightness
            <= grid.cells[index].brightness,
{
    let neighbors = grid.alive_neighbors(
        index % (grid.width as int),
        index / (grid.width as int),
    ) as int;
    lemma_brightness_after_step(grid.cells[index], neighbors, rules);
}

/// A cell that is alive after a step is fully bright. A cell that is dead
/// after a step keeps the decayed part of the brightness it had, rounded
/// down, which is never more than it had.
pub proof fn lemma_brightness_after_step(cell: Cell, neighbors: int, rules: Rules)
    requires
        rules.wf(),
    ensures
        next_cell(cell, neighbors, rules).alive ==> next_cell(cell, neighbors, rules).brightness
            == FULL_BRIGHTNESS,
        !next_cell(cell, neighbors, rules).alive ==> next_cell(cell, neighbors, rules).brightness
            == rules.decay.of(cell.brightness as int) && next_cell(
            cell,
            neighbors,
            rules,
        ).brightness <= cell.brightness,
{
    rules.decay.lemma_of_bounds(cell.brightness as int);
}

/// What has become of `cell` after one step for each entry of `neighbors`,
/// which gives the number of living neighbours it had at that step.
pub open spec fn after_steps(cell: Cell, neighbors: Seq<int>, rules: Rules) -> Cell
    decreases neighbors.len(),
{
    if neighbors.len() == 0 {
        cell
    } else {
        next_cell(after_steps(cell, neighbors.drop_last(), rules), neighbors.last(), rules)
    }
}

/// Whether `cell` is dead after each of the steps.
pub open spec fn dead_throughout(cell: Cell, neighbors: Seq<int>, rules: Rules) -> bool {
    forall|count: int|
        1 <= count <= neighbors.len() ==> !(#[trigger] after_steps(
            cell,
            neighbors.take(count),
            rules,
        )).alive
}

/// A cell that is dead after each of a row of steps has faded once for each
/// step: its brightness is what repeated decay leaves of the brightness it
/// started with.
pub proof fn lemma_dead_cell_fades(cell: Cell, neighbors: Seq<int>, rules: Rules)
    requires
        rules.wf(),
        dead_throughout(cell, neighbors, rules),
    ensures
        after_steps(cell, neighbors, rules).brightness == rules.decay.of_repeated(
            cell.brightness as int,
            neighbors.len(),
        ),
    decreases neighbors.len(),
{
    let count = neighbors.len();
    if count > 0 {
        let earlier = neighbors.drop_last();
        assert forall|k: int| 1 <= k <= earlier.len() implies !(#[trigger] after_steps(
            cell,
            earlier.take(k),
            rules,
        )).alive by {
            assert(earlier.take(k) =~= neighbors.take(k));
        }
        lemma_dead_cell_fades(cell, earlier, rules);
        assert(neighbors.take(count as int) =~= neighbors);
        rules.decay.lemma_repeated_never_grows(cell.brightness as int, (count - 1) as nat);
        rules.decay.lemma_repeated_never_grows(cell.brightness as int, count);
    }
}

/// Under a decay of less than one, a cell that is dead after each of 255
/// steps or more has no brightness left.
pub proof fn lemma_dead_cell_goes_dark(cell: Cell, neighbors: Seq<int>, rules: Rules)
    requires
        rules.wf(),
        rules.decay.is_proper(),
        dead_throughout(cell, neighbors, rules),
        neighbors.len() >= FULL_BRIGHTNESS,
    ensures
        after_steps(cell, neighbors, rules).brightness == 0,
{
    lemma_dead_cell_fades(cell, neighbors, rules);
    rules.decay.lemma_repeated_reaches_zero(cell.brightness as int, neighbors.len());
}

/// A grid is at rest exactly when no cell is alive before the step and dead
/// after it, or dead before and alive after: one such cell is a change, and
/// without one there is none.
pub proof fn lemma_change_is_one_cell(before: GridView, after: GridView)
    ensures
        alive_differs(before, after) <==> exists|i: int|
            0 <= i < before.cells.len() && (#[trigger] before.cells[i]).alive
                != after.cells[i].alive,
        !alive_differs(before, after) <==> forall|i: int|
            0 <= i < before.cells.len() ==> (#[trigger] before.cells[i]).alive
                == after.cells[i].alive,
{
}

/// The next generation is a function of the grid and the rules alone:
/// whatever `calculate_state` returns for a grid under given rules, it
/// returns the same for them every time.
pub proof fn lemma_step_deterministic(
    grid: GridView,
    rules: Rules,
    first: (GridView, bool),
    second: (GridView, bool),
)
    requires
        steps_to(grid, rules, first.0, first.1),
        steps_to(grid, rules, second.0, second.1),
    ensures
        first == second,
{
}

} // verus!
