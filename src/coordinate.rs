//! Integer grid coordinates and the unit step of each move.

use vstd::prelude::*;
use crate::pathbot_api::MoveDirection;

verus! {

/// A cell of the maze grid; the first room is at the origin, `y` grows southwards.
#[derive(PartialEq, Eq, Structural, Hash, Debug, Copy, Clone)]
pub struct Coordinate {
    pub x: i32,
    pub y: i32,
}

/// Whether an integer fits in an `i32`.
pub open spec fn fits_i32(v: int) -> bool {
    i32::MIN <= v <= i32::MAX
}

impl Coordinate {
    pub open spec fn origin() -> Coordinate {
        Coordinate { x: 0, y: 0 }
    }

    /// Whether the componentwise sum is representable.
    pub open spec fn can_add(self, rhs: Coordinate) -> bool {
        fits_i32(self.x + rhs.x) && fits_i32(self.y + rhs.y)
    }

    pub open spec fn spec_add(self, rhs: Coordinate) -> Coordinate {
        Coordinate { x: (self.x + rhs.x) as i32, y: (self.y + rhs.y) as i32 }
    }

    /// Componentwise sum.
    pub fn add(self, rhs: Coordinate) -> (r: Coordinate)
        requires
            self.can_add(rhs),
        ensures
            r == self.spec_add(rhs),
            r.x == self.x + rhs.x,
            r.y == self.y + rhs.y,
    {
        Coordinate { x: self.x + rhs.x, y: self.y + rhs.y }
    }

    /// The sum, or `None` where it leaves the representable grid.
    pub fn checked_add(self, rhs: Coordinate) -> (r: Option<Coordinate>)
        ensures
            r == (if self.can_add(rhs) { Some(self.spec_add(rhs)) } else { None::<Coordinate> }),
    {
        match (self.x.checked_add(rhs.x), self.y.checked_add(rhs.y)) {
            (Some(x), Some(y)) => Some(Coordinate { x, y }),
            _ => None,
        }
    }
}

impl MoveDirection {
    /// Unit step on the grid.
    pub open spec fn spec_delta(self) -> Coordinate {
        match self {
            MoveDirection::N => Coordinate { x: 0, y: -1i32 },
            MoveDirection::S => Coordinate { x: 0, y: 1 },
            MoveDirection::W => Coordinate { x: -1i32, y: 0 },
            MoveDirection::E => Coordinate { x: 1, y: 0 },
        }
    }

    pub open spec fn spec_opposite(self) -> MoveDirection {
        match self {
            MoveDirection::N => MoveDirection::S,
            MoveDirection::S => MoveDirection::N,
            MoveDirection::E => MoveDirection::W,
            MoveDirection::W => MoveDirection::E,
        }
    }

    pub fn delta(&self) -> (r: Coordinate)
        ensures
            r == self.spec_delta(),
    {
        match self {
            MoveDirection::N => Coordinate { x: 0, y: -1 },
            MoveDirection::S => Coordinate { x: 0, y: 1 },
            MoveDirection::W => Coordinate { x: -1, y: 0 },
            MoveDirection::E => Coordinate { x: 1, y: 0 },
        }
    }

    /// The move that leads back.
    pub fn opposite(self) -> (r: MoveDirection)
        ensures
            r == self.spec_opposite(),
    {
        match self {
            MoveDirection::N => MoveDirection::S,
            MoveDirection::S => MoveDirection::N,
            MoveDirection::E => MoveDirection::W,
            MoveDirection::W => MoveDirection::E,
        }
    }
}

/// The step of a move and the step of its opposite cancel out, the opposite of
/// the opposite is the move itself, and north/south, east/west are opposites.
pub proof fn lemma_delta_inverse(d: MoveDirection)
    ensures
        d.spec_delta().x + d.spec_opposite().spec_delta().x == 0,
        d.spec_delta().y + d.spec_opposite().spec_delta().y == 0,
        d.spec_opposite().spec_opposite() == d,
        d.spec_opposite() != d,
        MoveDirection::N.spec_opposite() == MoveDirection::S,
        MoveDirection::E.spec_opposite() == MoveDirection::W,
{
}

/// Moving one way and then back returns to the starting coordinate; in
/// particular north then south.
pub proof fn lemma_move_back(c: Coordinate, d: MoveDirection)
    requires
        c.can_add(d.spec_delta()),
    ensures
        c.spec_add(d.spec_delta()).can_add(d.spec_opposite().spec_delta()),
        c.spec_add(d.spec_delta()).spec_add(d.spec_opposite().spec_delta()) == c,
{
}

} // verus!
