//! Movement directions and their unit displacement vectors.

use vstd::prelude::*;
use crate::geometry::Vector;

verus! {

/// One of the four directions the snake can move in.
#[derive(Clone, Copy, PartialEq, Eq, Structural, Debug)]
pub enum Direction {
    Left,
    Right,
    Up,
    Down,
}

impl Direction {
    /// The unit displacement one tick of movement applies:
    /// up decreases the row index, down increases it, left decreases
    /// the column index, right increases it.
    pub open spec fn scallar_spec(self) -> Vector {
        match self {
            Direction::Left => Vector { x: -1i32, y: 0 },
            Direction::Right => Vector { x: 1, y: 0 },
            Direction::Up => Vector { x: 0, y: -1i32 },
            Direction::Down => Vector { x: 0, y: 1 },
        }
    }

    /// The opposite direction.
    pub open spec fn invert_spec(self) -> Direction {
        match self {
            Direction::Left => Direction::Right,
            Direction::Right => Direction::Left,
            Direction::Up => Direction::Down,
            Direction::Down => Direction::Up,
        }
    }

    /// The cell one step away from `p` in this direction, with the
    /// coordinate sum truncated to the machine integer.
    pub open spec fn step_spec(self, p: Vector) -> Vector {
        Vector {
            x: (p.x + self.scallar_spec().x) as i32,
            y: (p.y + self.scallar_spec().y) as i32,
        }
    }

    pub fn scallar(&self) -> (v: Vector)
        ensures
            v == self.scallar_spec(),
    {
        match self {
            Direction::Left => Vector::new(-1, 0),
            Direction::Right => Vector::new(1, 0),
            Direction::Up => Vector::new(0, -1),
            Direction::Down => Vector::new(0, 1),
        }
    }

    pub fn invert(&self) -> (d: Self)
        ensures
            d == self.invert_spec(),
    {
        match self {
            Direction::Left => Direction::Right,
            Direction::Right => Direction::Left,
            Direction::Up => Direction::Down,
            Direction::Down => Direction::Up,
        }
    }

    /// The cell one step away from `p` in this direction.
    pub fn step(&self, p: &Vector) -> (r: Vector)
        requires
            i32::MIN <= p.x + self.scallar_spec().x <= i32::MAX,
            i32::MIN <= p.y + self.scallar_spec().y <= i32::MAX,
        ensures
            r == self.step_spec(*p),
            r.x == p.x + self.scallar_spec().x,
            r.y == p.y + self.scallar_spec().y,
    {
        p.add(&self.scallar())
    }
}

/// Inverting a direction twice gives the original direction back.
pub proof fn lemma_invert_involutive(d: Direction)
    ensures
        d.invert_spec().invert_spec() == d,
{
}

/// One step moves a position by exactly one cell along the direction's
/// axis and leaves the other coordinate unchanged, whenever the moved
/// coordinate stays within the machine integers.
pub proof fn lemma_step_unit(d: Direction, p: Vector)
    requires
        i32::MIN < p.x < i32::MAX,
        i32::MIN < p.y < i32::MAX,
    ensures
        d == Direction::Up ==> d.step_spec(p).y == p.y - 1 && d.step_spec(p).x == p.x,
        d == Direction::Down ==> d.step_spec(p).y == p.y + 1 && d.step_spec(p).x == p.x,
        d == Direction::Left ==> d.step_spec(p).x == p.x - 1 && d.step_spec(p).y == p.y,
        d == Direction::Right ==> d.step_spec(p).x == p.x + 1 && d.step_spec(p).y == p.y,
{
}

} // verus!
