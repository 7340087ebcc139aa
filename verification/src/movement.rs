//! Directions and the record of the last one an entity took.

use vstd::prelude::*;
use crate::transform::Rotation;

verus! {

/// One of the four cardinal directions.
#[derive(Clone, Copy, Debug, PartialEq, Eq, Hash, Structural)]
pub enum Direction {
    UP,
    DOWN,
    LEFT,
    RIGHT,
}

impl Direction {
    /// The angle an entity heading this way is drawn at.
    pub open spec fn spec_rotation(self) -> Rotation {
        match self {
            Direction::LEFT => Rotation::Zero,
            Direction::DOWN => Rotation::Quarter,
            Direction::RIGHT => Rotation::Half,
            Direction::UP => Rotation::ThreeQuarters,
        }
    }

    /// The angle an entity heading this way is drawn at: zero for left, a
    /// quarter turn for down, a half turn for right, three quarters for up.
    pub fn rotation(self) -> (r: Rotation)
        ensures
            r == self.spec_rotation(),
    {
        match self {
            Direction::LEFT => Rotation::Zero,
            Direction::DOWN => Rotation::Quarter,
            Direction::RIGHT => Rotation::Half,
            Direction::UP => Rotation::ThreeQuarters,
        }
    }
}

/// The direction an entity moved in last.
#[derive(Clone, Copy, Debug, PartialEq, Eq, Hash, Structural)]
pub struct Movement {
    pub last_movement: Direction,
}

} // verus!
