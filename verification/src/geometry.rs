//! Grid coordinates and the fixed play-area dimensions.

use vstd::prelude::*;
use rand::Rng;

verus! {

/// Side of one square grid cell, in pixels.
pub const CELL_SIZE: u32 = 10;

/// Number of grid columns: an 800 pixel wide window divided into cells.
pub const GRID_WIDTH: i32 = 80;

/// Number of grid rows: a 600 pixel tall window divided into cells.
pub const GRID_HEIGHT: i32 = 60;

/// One cell of the grid, addressed by signed column and row indices.
#[derive(Clone, Copy, PartialEq, Eq, Structural, Debug)]
pub struct Vector {
    pub x: i32,
    pub y: i32,
}

/// Whether a cell lies inside the play area.
///
/// Positions exactly at `GRID_WIDTH` or `GRID_HEIGHT` still count as
/// in bounds: the boundary test is deliberately loose by one cell,
/// matching the game's established boundary rule.
pub open spec fn in_bounds(v: Vector) -> bool {
    0 <= v.x <= GRID_WIDTH && 0 <= v.y <= GRID_HEIGHT
}

impl Vector {
    pub fn new(x: i32, y: i32) -> (v: Self)
        ensures
            v.x == x,
            v.y == y,
    {
        Self { x, y }
    }

    /// A cell drawn uniformly from the visible grid.
    pub fn random() -> (v: Self)
        ensures
            0 <= v.x < GRID_WIDTH,
            0 <= v.y < GRID_HEIGHT,
    {
        Self { x: sample_below(GRID_WIDTH), y: sample_below(GRID_HEIGHT) }
    }

    /// Component-wise sum of two cells, read as displacement vectors.
    pub fn add(&self, rhs: &Vector) -> (r: Vector)
        requires
            i32::MIN <= self.x + rhs.x <= i32::MAX,
            i32::MIN <= self.y + rhs.y <= i32::MAX,
        ensures
            r.x == self.x + rhs.x,
            r.y == self.y + rhs.y,
    {
        Vector { x: self.x + rhs.x, y: self.y + rhs.y }
    }

    /// The square of pixels this cell covers: its top-left corner
    /// followed by its width and height.
    pub fn cell_rect(&self) -> (r: (i32, i32, u32, u32))
        requires
            i32::MIN <= self.x * CELL_SIZE <= i32::MAX,
            i32::MIN <= self.y * CELL_SIZE <= i32::MAX,
        ensures
            r.0 == self.x * CELL_SIZE,
            r.1 == self.y * CELL_SIZE,
            r.2 == CELL_SIZE,
            r.3 == CELL_SIZE,
    {
        (self.x * (CELL_SIZE as i32), self.y * (CELL_SIZE as i32), CELL_SIZE, CELL_SIZE)
    }
}

/// Whether `vec` lies inside the play area; leaving it ends the game.
pub fn is_in_bounds(vec: &Vector) -> (r: bool)
    ensures
        r == in_bounds(*vec),
{
    let x = vec.x;
    let y = vec.y;
    if x < 0 || y < 0 || x > GRID_WIDTH || y > GRID_HEIGHT {
        false
    } else {
        true
    }
}

/// Relies on rand::Rng::gen_range over the half-open range `0..bound`:
/// it panics only on an empty range and returns a value inside the range.
#[verifier::external_body]
fn sample_below(bound: i32) -> (r: i32)
    requires
        1 <= bound,
    ensures
        0 <= r < bound,
{
    rand::thread_rng().gen_range(0..bound)
}

} // verus!
