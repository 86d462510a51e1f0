//! The grid of cells and its wraparound topology.
//!
//! A grid is a rectangle of cells, `width` across and `height` down, whose
//! edges are joined: the column left of the first is the last, and the row
//! above the first is the last. Cells are kept row by row, top row first.

use crate::cell::Cell;
use vstd::arithmetic::div_mod::{
    lemma_fundamental_div_mod, lemma_fundamental_div_mod_converse, lemma_mod_add_multiples_vanish,
    lemma_mod_self_0, lemma_small_mod,
};
use vstd::prelude::*;

verus! {

/// The position `step` places from `index` on a ring of `limit` positions.
pub open spec fn wrap(index: int, step: int, limit: int) -> int {
    (index + step) % limit
}

/// What a cell adds to the count of living neighbours: one if it lives.
pub open spec fn alive_count(cell: Cell) -> nat {
    if cell.alive {
        1
    } else {
        0
    }
}

/// A grid as a mathematical value: its dimensions and its cells, row by row.
pub struct GridView {
    pub width: nat,
    pub height: nat,
    pub cells: Seq<Cell>,
}

impl GridView {
    /// Both dimensions are positive and there is one cell for each position.
    pub open spec fn wf(self) -> bool {
        &&& 0 < self.width
        &&& 0 < self.height
        &&& self.cells.len() == self.width * self.height
    }

    /// Whether `(x, y)` is a position of the grid.
    pub open spec fn contains(self, x: int, y: int) -> bool {
        0 <= x < self.width && 0 <= y < self.height
    }

    /// Where the cell at column `x` of row `y` stands among the cells.
    pub open spec fn index_of(self, x: int, y: int) -> int {
        y * self.width + x
    }

    /// The cell at column `x` of row `y`.
    pub open spec fn at(self, x: int, y: int) -> Cell {
        self.cells[self.index_of(x, y)]
    }

    /// The cell `dx` columns and `dy` rows from `(x, y)`, across the edges if
    /// need be.
    pub open spec fn neighbor(self, x: int, y: int, dx: int, dy: int) -> Cell {
        self.at(wrap(x, dx, self.width as int), wrap(y, dy, self.height as int))
    }

    /// How many of the eight cells around `(x, y)` are alive.
    pub open spec fn alive_neighbors(self, x: int, y: int) -> nat {
        alive_count(self.neighbor(x, y, -1, -1)) + alive_count(self.neighbor(x, y, 0, -1))
            + alive_count(self.neighbor(x, y, 1, -1)) + alive_count(self.neighbor(x, y, -1, 0))
            + alive_count(self.neighbor(x, y, 1, 0)) + alive_count(self.neighbor(x, y, -1, 1))
            + alive_count(self.neighbor(x, y, 0, 1)) + alive_count(self.neighbor(x, y, 1, 1))
    }

    /// Every position of the grid has its own place among the cells, from
    /// which the position can be read back.
    pub proof fn lemma_index_of_position(self, x: int, y: int)
        requires
            self.wf(),
            self.contains(x, y),
        ensures
            0 <= self.index_of(x, y) < self.cells.len(),
            self.index_of(x, y) % (self.width as int) == x,
            self.index_of(x, y) / (self.width as int) == y,
    {
        let w = self.width as int;
        let h = self.height as int;
        assert(0 <= y * w && y * w + w <= h * w) by (nonlinear_arith)
            requires
                0 <= y < h,
                0 < w,
        ;
        assert(w * y == y * w) by (nonlinear_arith);
        lemma_fundamental_div_mod_converse(y * w + x, w, y, x);
    }

    /// Every place among the cells belongs to one position of the grid.
    pub proof fn lemma_position_of_index(self, index: int)
        requires
            self.wf(),
            0 <= index < self.cells.len(),
        ensures
            self.contains(index % (self.width as int), index / (self.width as int)),
            self.index_of(index % (self.width as int), index / (self.width as int)) == index,
    {
        let w = self.width as int;
        let h = self.height as int;
        lemma_fundamental_div_mod(index, w);
        let q = index / w;
        let r = index % w;
        assert(w * q == q * w) by (nonlinear_arith);
        assert(0 <= q < h) by (nonlinear_arith)
            requires
                0 < w,
                0 <= r < w,
                0 <= q * w + r < h * w,
        ;
    }

    /// The neighbours of every position are positions of the grid.
    pub proof fn lemma_neighbor_in_grid(self, x: int, y: int, dx: int, dy: int)
        requires
            self.wf(),
            self.contains(x, y),
            -1 <= dx <= 1,
            -1 <= dy <= 1,
        ensures
            self.contains(wrap(x, dx, self.width as int), wrap(y, dy, self.height as int)),
    {
        lemma_wrap_step(x, self.width as int);
        lemma_wrap_step(y, self.height as int);
    }

    /// At most eight neighbours are alive.
    pub proof fn lemma_alive_neighbors_bound(self, x: int, y: int)
        ensures
            self.alive_neighbors(x, y) <= 8,
    {
    }

    /// The edges are joined: going up and left from the first cell leads to
    /// the last, and going down and right from the last leads to the first.
    pub proof fn lemma_wraparound_corners(self)
        requires
            self.wf(),
        ensures
            self.neighbor(0, 0, -1, -1) == self.at(self.width - 1, self.height - 1),
            self.neighbor(self.width - 1, self.height - 1, 1, 1) == self.at(0, 0),
    {
        lemma_wrap_step(0, self.width as int);
        lemma_wrap_step(0, self.height as int);
        lemma_wrap_step(self.width - 1, self.width as int);
        lemma_wrap_step(self.height - 1, self.height as int);
    }
}

/// One place before the first position of a ring is its last, one place after
/// the last is its first, and every other step stays next door.
pub proof fn lemma_wrap_step(index: int, limit: int)
    requires
        0 <= index < limit,
    ensures
        wrap(index, -1, limit) == if index == 0 {
            limit - 1
        } else {
            index - 1
        },
        wrap(index, 0, limit) == index,
        wrap(index, 1, limit) == if index == limit - 1 {
            0
        } else {
            index + 1
        },
{
    lemma_small_mod(index as nat, limit as nat);
    if index == 0 {
        lemma_mod_add_multiples_vanish(-1, limit);
        lemma_small_mod((limit - 1) as nat, limit as nat);
    } else {
        lemma_small_mod((index - 1) as nat, limit as nat);
    }
    if index == limit - 1 {
        lemma_mod_self_0(limit);
    } else {
        lemma_small_mod((index + 1) as nat, limit as nat);
    }
}

/// The position before `index` on a ring of `limit` positions.
pub fn step_back(index: usize, limit: usize) -> (position: usize)
    requires
        index < limit,
    ensures
        position == wrap(index as int, -1, limit as int),
        position < limit,
{
    proof {
        lemma_wrap_step(index as int, limit as int);
    }
    if index == 0 {
        limit - 1
    } else {
        index - 1
    }
}

/// The position after `index` on a ring of `limit` positions.
pub fn step_forth(index: usize, limit: usize) -> (position: usize)
    requires
        index < limit,
    ensures
        position == wrap(index as int, 1, limit as int),
        position < limit,
{
    proof {
        lemma_wrap_step(index as int, limit as int);
    }
    if index == limit - 1 {
        0
    } else {
        index + 1
    }
}

/// A rectangle of cells with joined edges.
#[derive(Debug)]
pub struct Grid {
    width: usize,
    height: usize,
    cells: Vec<Cell>,
}

impl View for Grid {
    type V = GridView;

    closed spec fn view(&self) -> GridView {
        GridView { width: self.width as nat, height: self.height as nat, cells: self.cells@ }
    }
}

impl Grid {
    /// A grid is well formed when its view is.
    pub open spec fn wf(&self) -> bool {
        self@.wf()
    }

    /// Makes a grid of `width` by `height` from its cells, given row by row.
    /// There is no such grid when a dimension is zero or the number of cells
    /// is not `width * height`.
    pub fn from_cells(width: usize, height: usize, cells: Vec<Cell>) -> (made: Option<Grid>)
        ensures
            made is Some <==> 0 < width && 0 < height && cells@.len() == width * height,
            made is Some ==> made->0.wf() && made->0@ == (GridView {
                width: width as nat,
                height: height as nat,
                cells: cells@,
            }),
    {
        if width == 0 || height == 0 {
            return None;
        }
        assert(cells@.len() == cells.len());
        match width.checked_mul(height) {
            Some(count) => {
                if cells.len() == count {
                    Some(Grid { width, height, cells })
                } else {
                    None
                }
            },
            None => None,
        }
    }

    /// Makes a grid from dimensions and cells that are known to fit.
    pub(crate) fn assemble(width: usize, height: usize, cells: Vec<Cell>) -> (grid: Grid)
        requires
            0 < width,
            0 < height,
            cells@.len() == width * height,
        ensures
            grid.wf(),
            grid@ == (GridView { width: width as nat, height: height as nat, cells: cells@ }),
    {
        Grid { width, height, cells }
    }

    /// The number of columns.
    pub fn width(&self) -> (width: usize)
        ensures
            width == self@.width,
    {
        self.width
    }

    /// The number of rows.
    pub fn height(&self) -> (height: usize)
        ensures
            height == self@.height,
    {
        self.height
    }

    /// The cells, row by row.
    pub fn cells(&self) -> (cells: &Vec<Cell>)
        ensures
            cells@ == self@.cells,
    {
        &self.cells
    }

    /// The cell at column `x` of row `y`, if the grid has such a position.
    pub fn get(&self, x: usize, y: usize) -> (found: Option<Cell>)
        requires
            self.wf(),
        ensures
            found is Some <==> self@.contains(x as int, y as int),
            found is Some ==> found->0 == self@.at(x as int, y as int),
    {
        if x < self.width && y < self.height {
            Some(self.cell(x, y))
        } else {
            None
        }
    }

    /// The cell at column `x` of row `y`.
    pub fn cell(&self, x: usize, y: usize) -> (cell: Cell)
        requires
            self.wf(),
            self@.contains(x as int, y as int),
        ensures
            cell == self@.at(x as int, y as int),
    {
        proof {
            self@.lemma_index_of_position(x as int, y as int);
            assert(0 <= y * self.width) by (nonlinear_arith)
                requires
                    0 <= y,
                    0 <= self.width,
            ;
            assert(self.cells@.len() == self.cells.len());
        }
        self.cells[y * self.width + x]
    }

    /// How many of the eight cells around `(x, y)` are alive, counting across
    /// the edges.
    pub fn alive_neighbors(&self, x: usize, y: usize) -> (count: u8)
        requires
            self.wf(),
            self@.contains(x as int, y as int),
        ensures
            count == self@.alive_neighbors(x as int, y as int),
            count <= 8,
    {
        let left: usize = step_back(x, self.width);
        let right: usize = step_forth(x, self.width);
        let above: usize = step_back(y, self.height);
        let below: usize = step_forth(y, self.height);
        proof {
            lemma_wrap_step(x as int, self.width as int);
            lemma_wrap_step(y as int, self.height as int);
        }
        let top: u8 = self.alive_at(left, above) + self.alive_at(x, above) + self.alive_at(
            right,
            above,
        );
        let middle: u8 = self.alive_at(left, y) + self.alive_at(right, y);
        let bottom: u8 = self.alive_at(left, below) + self.alive_at(x, below) + self.alive_at(
            right,
            below,
        );
        top + middle + bottom
    }

    /// One if the cell at `(x, y)` is alive, zero if not.
    fn alive_at(&self, x: usize, y: usize) -> (count: u8)
        requires
            self.wf(),
            self@.contains(x as int, y as int),
        ensures
            count == alive_count(self@.at(x as int, y as int)),
            count <= 1,
    {
        if self.cell(x, y).alive {
            1
        } else {
            0
        }
    }
}

} // verus!
