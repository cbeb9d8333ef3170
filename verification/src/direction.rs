//! Axis-aligned facing of the vehicle and its right-angle rotation law.
//!
//! The facings map to unit vectors on the ground plane: `Left` is -X,
//! `Right` is +X, `Forward` is -Z, `Backward` is +Z.

use vstd::prelude::*;

verus! {

#[derive(Clone, Copy, Debug, PartialEq, Eq, Structural)]
pub enum Direction {
    Left,
    Right,
    Forward,
    Backward,
}

impl Direction {
    /// The facing after a quarter turn to the left.
    pub open spec fn turn_left_spec(self) -> Direction {
        match self {
            Direction::Left => Direction::Backward,
            Direction::Right => Direction::Forward,
            Direction::Forward => Direction::Left,
            Direction::Backward => Direction::Right,
        }
    }

    /// The facing after a quarter turn to the right.
    pub open spec fn turn_right_spec(self) -> Direction {
        match self {
            Direction::Left => Direction::Forward,
            Direction::Right => Direction::Backward,
            Direction::Forward => Direction::Right,
            Direction::Backward => Direction::Left,
        }
    }

    pub fn turn_left(&self) -> (r: Self)
        ensures
            r == self.turn_left_spec(),
    {
        match self {
            Direction::Left => Direction::Backward,
            Direction::Right => Direction::Forward,
            Direction::Forward => Direction::Left,
            Direction::Backward => Direction::Right,
        }
    }

    pub fn turn_right(&self) -> (r: Self)
        ensures
            r == self.turn_right_spec(),
    {
        match self {
            Direction::Left => Direction::Forward,
            Direction::Right => Direction::Backward,
            Direction::Forward => Direction::Right,
            Direction::Backward => Direction::Left,
        }
    }
}

impl Default for Direction {
    /// The initial facing is `Forward`.
    fn default() -> (r: Self)
        ensures
            r == Direction::Forward,
    {
        Direction::Forward
    }
}

/// The two rotations are total 4-cycles and mutual inverses: four quarter
/// turns the same way return to the start, and a left turn undoes a right
/// turn (and the other way round).
pub proof fn lemma_turn_cycles(d: Direction)
    ensures
        d.turn_left_spec().turn_left_spec().turn_left_spec().turn_left_spec() == d,
        d.turn_right_spec().turn_right_spec().turn_right_spec().turn_right_spec() == d,
        d.turn_left_spec().turn_right_spec() == d,
        d.turn_right_spec().turn_left_spec() == d,
{
}

} // verus!
