//! Where an entity stands and which way it faces.
//!
//! Lengths are whole numbers of half units. Half a unit is the shortest step
//! any entity takes, so every place the simulation can reach is exact.

use vstd::prelude::*;
use crate::movement::Direction;

verus! {

/// Half units in one unit of length.
pub const UNIT: i64 = 2;

/// A facing angle, counted in quarter turns.
#[derive(Clone, Copy, Debug, PartialEq, Eq, Hash, Structural)]
pub enum Rotation {
    /// An angle of zero.
    Zero,
    /// A quarter turn, π/2.
    Quarter,
    /// A half turn, π.
    Half,
    /// Three quarter turns, 3π/2.
    ThreeQuarters,
}

impl Rotation {
    /// The angle as a number of quarter turns.
    pub open spec fn spec_quarter_turns(self) -> int {
        match self {
            Rotation::Zero => 0,
            Rotation::Quarter => 1,
            Rotation::Half => 2,
            Rotation::ThreeQuarters => 3,
        }
    }

    /// The angle as a number of quarter turns, for a renderer to scale by π/2.
    pub fn quarter_turns(self) -> (n: u8)
        ensures
            n == self.spec_quarter_turns(),
    {
        match self {
            Rotation::Zero => 0,
            Rotation::Quarter => 1,
            Rotation::Half => 2,
            Rotation::ThreeQuarters => 3,
        }
    }
}

/// The nearest coordinate to `v` that the plane holds.
pub open spec fn clip(v: int) -> i64 {
    if v < i64::MIN {
        i64::MIN
    } else if v > i64::MAX {
        i64::MAX
    } else {
        v as i64
    }
}

/// Moves the coordinate `v` by `d`, stopping at the edge of the plane.
pub fn shift(v: i64, d: i64) -> (r: i64)
    ensures
        r == clip(v + d),
{
    if d >= 0 {
        if v > i64::MAX - d {
            i64::MAX
        } else {
            v + d
        }
    } else {
        if v < i64::MIN - d {
            i64::MIN
        } else {
            v + d
        }
    }
}

/// A place on the plane, in half units.
#[derive(Clone, Copy, Debug, PartialEq, Eq, Hash, Structural)]
pub struct Position {
    pub x: i64,
    pub y: i64,
}

impl Position {
    /// The place `x` whole units right of the origin and `y` above it.
    pub fn from_units(x: i32, y: i32) -> (p: Position)
        ensures
            p.x == UNIT * x,
            p.y == UNIT * y,
    {
        let wide_x: i64 = x as i64;
        let wide_y: i64 = y as i64;
        Position { x: UNIT * wide_x, y: UNIT * wide_y }
    }

    /// This place moved by `dx` and `dy` half units.
    pub open spec fn spec_moved(self, dx: int, dy: int) -> Position {
        Position { x: clip(self.x + dx), y: clip(self.y + dy) }
    }

    /// This place moved by `dx` and `dy` half units, each axis stopping at
    /// the edge of the plane.
    pub fn moved(self, dx: i64, dy: i64) -> (p: Position)
        ensures
            p == self.spec_moved(dx as int, dy as int),
    {
        Position { x: shift(self.x, dx), y: shift(self.y, dy) }
    }

    /// This place moved `length` half units the way `way` points: down and
    /// left count down, up and right count up.
    pub open spec fn spec_ahead(self, way: Direction, length: int) -> Position {
        match way {
            Direction::DOWN => self.spec_moved(0, -length),
            Direction::LEFT => self.spec_moved(-length, 0),
            Direction::UP => self.spec_moved(0, length),
            Direction::RIGHT => self.spec_moved(length, 0),
        }
    }

    /// The square of the distance between two places, in half units squared.
    pub open spec fn distance_squared(self, other: Position) -> int {
        (self.x - other.x) * (self.x - other.x) + (self.y - other.y) * (self.y - other.y)
    }

    /// Whether two places are closer than `reach` half units.
    pub open spec fn spec_within(self, other: Position, reach: u32) -> bool {
        self.distance_squared(other) < reach * reach
    }

    /// Whether two places are closer than `reach` half units.
    pub fn within(self, other: Position, reach: u32) -> (near: bool)
        ensures
            near == self.spec_within(other, reach),
    {
        let dx: i128 = self.x as i128 - other.x as i128;
        let dy: i128 = self.y as i128 - other.y as i128;
        let r: i128 = reach as i128;
        if dx >= r || dx <= -r || dy >= r || dy <= -r {
            proof {
                lemma_far_on_one_axis(dx as int, dy as int, r as int);
            }
            false
        } else {
            proof {
                lemma_square_bound(dx as int, r as int);
                lemma_square_bound(dy as int, r as int);
                lemma_square_bound(r as int, 0x1_0000_0000);
            }
            dx * dx + dy * dy < r * r
        }
    }
}

/// Two moves that do not pull against each other add up, also at the edge of
/// the plane.
pub proof fn lemma_moved_twice(p: Position, dx1: int, dy1: int, dx2: int, dy2: int)
    requires
        (dx1 >= 0 && dx2 >= 0) || (dx1 <= 0 && dx2 <= 0),
        (dy1 >= 0 && dy2 >= 0) || (dy1 <= 0 && dy2 <= 0),
    ensures
        p.spec_moved(dx1, dy1).spec_moved(dx2, dy2) == p.spec_moved(dx1 + dx2, dy1 + dy2),
{
}

/// A square is below the square of any strict bound on its root.
proof fn lemma_square_bound(a: int, r: int)
    by (nonlinear_arith)
    requires
        -r < a < r,
    ensures
        0 <= a * a < r * r,
{
}

/// Two places at least `r` apart along one axis are at least `r` apart.
proof fn lemma_far_on_one_axis(dx: int, dy: int, r: int)
    by (nonlinear_arith)
    requires
        0 <= r,
        dx >= r || dx <= -r || dy >= r || dy <= -r,
    ensures
        dx * dx + dy * dy >= r * r,
{
}

} // verus!
