//! Drawing a grid as pixels.
//!
//! A frame holds one pixel of four bytes for each cell, row by row, top row
//! first. All four bytes of a pixel carry the brightness of its cell, which
//! draws the grid in shades of grey.

use crate::grid::{Grid, GridView};
use vstd::prelude::*;

verus! {

/// The number of bytes in a pixel.
pub const BYTES_PER_PIXEL: usize = 4;

/// The bytes of the frame that shows `grid`.
pub open spec fn rgba(grid: GridView) -> Seq<u8> {
    Seq::new(4 * grid.cells.len(), |j: int| grid.cells[j / 4].brightness)
}

/// A frame that cannot show a grid, because it does not hold four bytes for
/// each cell.
#[derive(Clone, Copy, Debug, PartialEq, Eq, Structural)]
pub struct FrameSizeMismatch {
    /// The number of bytes in the frame.
    pub frame_len: usize,
    /// The number of cells in the grid.
    pub cell_count: usize,
}

/// Draws `grid` into `frame`. A frame of any other size than four bytes for
/// each cell is refused and left as it was.
pub fn render(grid: &Grid, frame: &mut [u8]) -> (result: Result<(), FrameSizeMismatch>)
    requires
        grid.wf(),
    ensures
        result is Ok <==> old(frame)@.len() == BYTES_PER_PIXEL * grid@.cells.len(),
        result is Ok ==> final(frame)@ == rgba(grid@),
        result is Err ==> final(frame)@ == old(frame)@ && result->Err_0 == (FrameSizeMismatch {
            frame_len: old(frame)@.len() as usize,
            cell_count: grid@.cells.len() as usize,
        }),
{
    let cells = grid.cells();
    let cell_count: usize = cells.len();
    let frame_len: usize = frame.len();
    if frame_len % BYTES_PER_PIXEL != 0 || frame_len / BYTES_PER_PIXEL != cell_count {
        return Err(FrameSizeMismatch { frame_len, cell_count });
    }
    let mut i: usize = 0;
    while i < cell_count
        invariant
            cells@ == grid@.cells,
            cell_count == cells@.len(),
            frame@.len() == frame_len,
            frame_len == BYTES_PER_PIXEL * cell_count,
            i <= cell_count,
            forall|j: int| 0 <= j < BYTES_PER_PIXEL * i ==> frame@[j] == cells@[j / 4].brightness,
        decreases cell_count - i,
    {
        let brightness: u8 = cells[i].brightness;
        let first: usize = BYTES_PER_PIXEL * i;
        frame[first] = brightness;
        frame[first + 1] = brightness;
        frame[first + 2] = brightness;
        frame[first + 3] = brightness;
        i = i + 1;
    }
    proof {
        assert(frame@ =~= rgba(grid@));
    }
    Ok(())
}

/// The pixel of the cell at `(x, y)` is the one at place `y * width + x`
/// of the frame, and each of its four bytes is the brightness of that cell.
pub proof fn lemma_pixel_of_position(grid: GridView, x: int, y: int, channel: int)
    requires
        grid.wf(),
        grid.contains(x, y),
        0 <= channel < BYTES_PER_PIXEL,
    ensures
        rgba(grid).len() == BYTES_PER_PIXEL * grid.width * grid.height,
        0 <= BYTES_PER_PIXEL * grid.index_of(x, y) + channel < rgba(grid).len(),
        rgba(grid)[BYTES_PER_PIXEL * grid.index_of(x, y) + channel] == grid.at(x, y).brightness,
{
    grid.lemma_index_of_position(x, y);
    assert(4 * grid.cells.len() == 4 * grid.width * grid.height) by (nonlinear_arith)
        requires
            grid.cells.len() == grid.width * grid.height,
    ;
}

/// The pixel at place `pixel` of the frame shows the cell in column
/// `pixel % width` of row `pixel / width`.
pub proof fn lemma_position_of_pixel(grid: GridView, pixel: int, channel: int)
    requires
        grid.wf(),
        0 <= pixel < grid.cells.len(),
        0 <= channel < BYTES_PER_PIXEL,
    ensures
        grid.contains(pixel % (grid.width as int), pixel / (grid.width as int)),
        rgba(grid)[BYTES_PER_PIXEL * pixel + channel] == grid.at(
            pixel % (grid.width as int),
            pixel / (grid.width as int),
        ).brightness,
{
    grid.lemma_position_of_index(pixel);
}

} // verus!
