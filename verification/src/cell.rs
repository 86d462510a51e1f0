//! One position of the grid.

use vstd::prelude::*;

verus! {

/// The brightness of a living cell.
pub const FULL_BRIGHTNESS: u8 = 255;

/// The state of one grid position: whether it lives, and how bright it is drawn.
///
/// A dead cell keeps a brightness of its own, which fades generation by
/// generation.
#[derive(Clone, Copy, Debug, PartialEq, Eq, Structural)]
pub struct Cell {
    pub alive: bool,
    pub brightness: u8,
}

impl Cell {
    /// A living cell at full brightness.
    pub open spec fn lit() -> Cell {
        Cell { alive: true, brightness: FULL_BRIGHTNESS }
    }

    /// A dead cell with no glow left.
    pub open spec fn dark() -> Cell {
        Cell { alive: false, brightness: 0 }
    }

    /// Whether the cell is one of the two states a fresh grid is made of.
    pub open spec fn is_fresh(self) -> bool {
        self == Cell::lit() || self == Cell::dark()
    }
}

} // verus!
