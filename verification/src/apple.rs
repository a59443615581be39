//! The apple the snake grows by eating.

use vstd::prelude::*;
use crate::geometry::{Vector, GRID_WIDTH, GRID_HEIGHT};

verus! {

/// A single apple occupying one grid cell.
pub struct Apple {
    pub pos: Vector,
}

impl Apple {
    pub fn new(pos: Vector) -> (a: Self)
        ensures
            a.pos == pos,
    {
        Self { pos }
    }

    /// A fresh apple on a cell drawn uniformly from the visible grid.
    ///
    /// Nothing keeps the new apple off the snake's body: the game
    /// accepts such a spawn and the snake simply eats it in place.
    pub fn respawn() -> (a: Self)
        ensures
            0 <= a.pos.x < GRID_WIDTH,
            0 <= a.pos.y < GRID_HEIGHT,
    {
        Self::new(Vector::random())
    }
}

} // verus!
