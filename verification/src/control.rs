//! The decisions of the loop that drives a simulation.
//!
//! Whoever owns the window draws the grid, shows the frame and asks the
//! window what happened. What follows from the answers is decided here: the
//! loop ends when the frame could not be shown or the user asked to leave,
//! and otherwise the simulation goes one generation further.

use crate::simulation::{report_of, tick, Simulation, SimulationView, TickReport};
use crate::transition::{alive_differs, next_generation};
use vstd::prelude::*;

verus! {

/// The size of a window, in physical pixels.
#[derive(Clone, Copy, Debug, PartialEq, Eq, Structural)]
pub struct Size {
    pub width: u32,
    pub height: u32,
}

/// What the window reported when it was asked.
#[derive(Clone, Copy, Debug, PartialEq, Eq, Structural)]
pub struct Poll {
    /// The user asked to close the window.
    pub quit_requested: bool,
    /// The Escape key was pressed.
    pub escape_pressed: bool,
    /// The window has a new size.
    pub resized: Option<Size>,
}

/// What the loop does next.
#[derive(Clone, Copy, Debug, PartialEq, Eq, Structural)]
pub enum Decision {
    /// The loop ends.
    Exit,
    /// The loop goes on. Where `resize` holds a size, the surface on which the
    /// frame is shown takes that size; the grid keeps its own.
    Continue { resize: Option<Size> },
}

/// What one pass of the loop came to.
#[derive(Clone, Copy, Debug, PartialEq, Eq, Structural)]
pub struct Turn {
    /// Whether the loop ends or goes on.
    pub decision: Decision,
    /// What the tick found, where the loop goes on.
    pub report: Option<TickReport>,
}

/// The decision owed after a frame was shown (`presented`) or could not be,
/// and the window was asked (`poll`), or had nothing to report.
pub open spec fn decision_of(presented: bool, poll: Option<Poll>) -> Decision {
    if !presented {
        Decision::Exit
    } else {
        match poll {
            Some(poll) => if poll.escape_pressed || poll.quit_requested {
                Decision::Exit
            } else {
                Decision::Continue { resize: poll.resized }
            },
            None => Decision::Continue { resize: None },
        }
    }
}

/// The simulation one generation on.
pub open spec fn ticked(simulation: SimulationView) -> SimulationView {
    SimulationView {
        grid: next_generation(simulation.grid, simulation.rules),
        rules: simulation.rules,
        generation: simulation.generation + 1,
    }
}

/// Decides whether the loop ends or goes on.
pub fn decide(presented: bool, poll: &Option<Poll>) -> (decision: Decision)
    ensures
        decision == decision_of(presented, *poll),
{
    if !presented {
        return Decision::Exit;
    }
    match poll {
        Some(poll) => {
            if poll.escape_pressed || poll.quit_requested {
                Decision::Exit
            } else {
                Decision::Continue { resize: poll.resized }
            }
        },
        None => Decision::Continue { resize: None },
    }
}

/// Makes one pass of the loop: decides whether it ends, and takes the
/// simulation one generation further if it does not. A simulation whose loop
/// ends is left as it was.
pub fn advance(simulation: &mut Simulation, presented: bool, poll: &Option<Poll>) -> (turn: Turn)
    requires
        old(simulation).wf(),
        decision_of(presented, *poll) is Continue ==> old(simulation)@.generation < u64::MAX,
    ensures
        final(simulation).wf(),
        turn.decision == decision_of(presented, *poll),
        turn.decision is Exit ==> final(simulation)@ == old(simulation)@ && turn.report is None,
        turn.decision is Continue ==> final(simulation)@ == ticked(old(simulation)@)
            && turn.report == Some(
            report_of(
                old(simulation)@.generation as u64,
                alive_differs(old(simulation)@.grid, final(simulation)@.grid),
            ),
        ),
{
    let decision: Decision = decide(presented, poll);
    match decision {
        Decision::Exit => Turn { decision, report: None },
        Decision::Continue { .. } => {
            let report: TickReport = tick(simulation);
            Turn { decision, report: Some(report) }
        },
    }
}

} // verus!
