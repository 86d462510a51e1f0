//! A running simulation: a grid, the rules it lives by, and the count of the
//! generations it has been through.

use crate::fraction::Fraction;
use crate::grid::{Grid, GridView};
use crate::seeding::{seed, seeded_cells};
use crate::transition::{alive_differs, calculate_state, next_generation, Rules};
use vstd::prelude::*;

verus! {

/// The number of columns of the standard grid.
pub const WIDTH: usize = 640;

/// The number of rows of the standard grid.
pub const HEIGHT: usize = 480;

/// The standard neighbour limit.
pub const NEIGHBOR_LIMIT: u8 = 3;

/// Everything that can be chosen about a simulation before it starts.
#[derive(Clone, Copy, Debug, PartialEq, Eq, Structural)]
pub struct Config {
    /// The number of columns of the grid. It stays the same for the whole run.
    pub width: usize,
    /// The number of rows of the grid. It stays the same for the whole run.
    pub height: usize,
    /// The rule by which cells live and die, and the rate at which the dead
    /// fade.
    pub rules: Rules,
    /// The share of cells that start alive, on average.
    pub density: Fraction,
}

impl Config {
    /// A configuration is well formed when both dimensions are positive, the
    /// cells can be counted, and the decay and the density are fractions of
    /// one.
    pub open spec fn wf(self) -> bool {
        &&& 0 < self.width
        &&& 0 < self.height
        &&& self.width * self.height <= usize::MAX
        &&& self.rules.wf()
        &&& self.density.wf()
    }

    /// The standard configuration: 640 by 480 cells, a neighbour limit of
    /// three, dead cells that keep 95 hundredths of their brightness each
    /// generation, and half of the cells alive at the start.
    pub open spec fn standard() -> Config {
        Config {
            width: WIDTH,
            height: HEIGHT,
            rules: Rules {
                neighbor_limit: NEIGHBOR_LIMIT,
                decay: Fraction { numerator: 95, denominator: 100 },
            },
            density: Fraction { numerator: 1, denominator: 2 },
        }
    }

    /// Tells whether the configuration is well formed.
    pub fn is_valid(&self) -> (ok: bool)
        ensures
            ok == self.wf(),
    {
        self.width > 0 && self.height > 0 && self.width.checked_mul(self.height).is_some()
            && self.rules.is_valid() && self.density.is_valid()
    }
}

impl Default for Config {
    /// The standard configuration.
    fn default() -> (config: Config)
        ensures
            config == Config::standard(),
            config.wf(),
    {
        Config {
            width: WIDTH,
            height: HEIGHT,
            rules: Rules {
                neighbor_limit: NEIGHBOR_LIMIT,
                decay: Fraction { numerator: 95, denominator: 100 },
            },
            density: Fraction { numerator: 1, denominator: 2 },
        }
    }
}

/// What one tick found.
#[derive(Clone, Copy, Debug, PartialEq, Eq, Structural)]
pub enum TickReport {
    /// At least one cell came alive or died.
    Changed,
    /// No cell came alive or died. `generation` is the number of generations
    /// that had gone by before this one.
    Stable { generation: u64 },
}

/// The report owed for a tick taken after `generation` generations.
pub open spec fn report_of(generation: u64, changed: bool) -> TickReport {
    if changed {
        TickReport::Changed
    } else {
        TickReport::Stable { generation }
    }
}

/// A simulation as a mathematical value.
pub struct SimulationView {
    pub grid: GridView,
    pub rules: Rules,
    pub generation: nat,
}

/// A grid on its way through the generations.
#[derive(Debug)]
pub struct Simulation {
    grid: Grid,
    rules: Rules,
    generation: u64,
}

impl View for Simulation {
    type V = SimulationView;

    closed spec fn view(&self) -> SimulationView {
        SimulationView {
            grid: self.grid@,
            rules: self.rules,
            generation: self.generation as nat,
        }
    }
}

impl Simulation {
    /// A simulation is well formed when its grid and its rules are, and its
    /// count of generations is one that can be held.
    pub open spec fn wf(&self) -> bool {
        self@.grid.wf() && self@.rules.wf() && self@.generation <= u64::MAX
    }

    /// Starts a simulation on a grid filled at random.
    pub fn new(config: &Config) -> (simulation: Simulation)
        requires
            config.wf(),
        ensures
            simulation.wf(),
            simulation@.grid.width == config.width,
            simulation@.grid.height == config.height,
            simulation@.rules == config.rules,
            simulation@.generation == 0,
            exists|draws: Seq<u32>|
                #[trigger] seeded_cells(draws, config.density) == simulation@.grid.cells,
            forall|i: int|
                0 <= i < simulation@.grid.cells.len() ==> (
                #[trigger] simulation@.grid.cells[i]).is_fresh(),
    {
        let grid: Grid = seed(config.width, config.height, &config.density);
        Simulation { grid, rules: config.rules, generation: 0 }
    }

    /// Starts a simulation on a given grid.
    pub fn with_grid(grid: Grid, rules: Rules) -> (simulation: Simulation)
        requires
            grid.wf(),
            rules.wf(),
        ensures
            simulation.wf(),
            simulation@ == (SimulationView { grid: grid@, rules, generation: 0 }),
    {
        Simulation { grid, rules, generation: 0 }
    }

    /// The grid as it stands.
    pub fn grid(&self) -> (grid: &Grid)
        ensures
            grid@ == self@.grid,
    {
        &self.grid
    }

    /// The rules of the simulation.
    pub fn rules(&self) -> (rules: Rules)
        ensures
            rules == self@.rules,
    {
        self.rules
    }

    /// The number of generations gone by.
    pub fn generation(&self) -> (generation: u64)
        ensures
            generation == self@.generation,
    {
        self.generation
    }
}

/// Takes the simulation one generation further, and reports whether the grid
/// has come to rest: whether no cell came alive or died. The simulation goes
/// on either way.
pub fn tick(simulation: &mut Simulation) -> (report: TickReport)
    requires
        old(simulation).wf(),
        old(simulation)@.generation < u64::MAX,
    ensures
        final(simulation).wf(),
        final(simulation)@.rules == old(simulation)@.rules,
        final(simulation)@.grid == next_generation(old(simulation)@.grid, old(simulation)@.rules),
        final(simulation)@.generation == old(simulation)@.generation + 1,
        report == report_of(
            old(simulation)@.generation as u64,
            alive_differs(old(simulation)@.grid, final(simulation)@.grid),
        ),
{
    let generation: u64 = simulation.generation;
    let (grid, has_changes) = calculate_state(&simulation.grid, &simulation.rules);
    simulation.grid = grid;
    simulation.generation = generation + 1;
    if has_changes {
        TickReport::Changed
    } else {
        TickReport::Stable { generation }
    }
}

} // verus!
