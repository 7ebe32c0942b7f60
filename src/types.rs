//! Grid positions.
use vstd::prelude::*;

verus! {

/// A tile position on a map grid.
#[derive(Debug, Hash, Clone, Copy, PartialEq, Eq, Structural, PartialOrd, Ord)]
pub struct Position {
    x: u32,
    y: u32,
}

impl Position {
    pub closed spec fn spec_x(&self) -> u32 {
        self.x
    }

    pub closed spec fn spec_y(&self) -> u32 {
        self.y
    }

    pub fn new(x: u32, y: u32) -> (r: Self)
        ensures
            r == Position::spec_new(x, y),
            r.spec_x() == x,
            r.spec_y() == y,
    {
        Position { x, y }
    }

    pub fn x(&self) -> (r: u32)
        ensures
            r == self.spec_x(),
    {
        self.x
    }

    pub fn y(&self) -> (r: u32)
        ensures
            r == self.spec_y(),
    {
        self.y
    }
}

impl core::ops::Add<Position> for Position {
    type Output = Position;

    fn add(self, rhs: Position) -> (r: Position) {
        Position { x: self.x + rhs.x, y: self.y + rhs.y }
    }
}

impl vstd::std_specs::ops::AddSpecImpl<Position> for Position {
    open spec fn obeys_add_spec() -> bool {
        true
    }

    open spec fn add_req(self, rhs: Position) -> bool {
        self.spec_x() + rhs.spec_x() <= u32::MAX && self.spec_y() + rhs.spec_y() <= u32::MAX
    }

    open spec fn add_spec(self, rhs: Position) -> Position {
        Position::spec_new((self.spec_x() + rhs.spec_x()) as u32, (self.spec_y() + rhs.spec_y()) as u32)
    }
}

impl core::ops::Sub<Position> for Position {
    type Output = Position;

    fn sub(self, rhs: Position) -> (r: Position) {
        Position { x: self.x - rhs.x, y: self.y - rhs.y }
    }
}

impl vstd::std_specs::ops::SubSpecImpl<Position> for Position {
    open spec fn obeys_sub_spec() -> bool {
        true
    }

    open spec fn sub_req(self, rhs: Position) -> bool {
        rhs.spec_x() <= self.spec_x() && rhs.spec_y() <= self.spec_y()
    }

    open spec fn sub_spec(self, rhs: Position) -> Position {
        Position::spec_new((self.spec_x() - rhs.spec_x()) as u32, (self.spec_y() - rhs.spec_y()) as u32)
    }
}

impl core::ops::Mul<u32> for Position {
    type Output = Position;

    fn mul(self, rhs: u32) -> (r: Position) {
        Position { x: self.x * rhs, y: self.y * rhs }
    }
}

impl vstd::std_specs::ops::MulSpecImpl<u32> for Position {
    open spec fn obeys_mul_spec() -> bool {
        true
    }

    open spec fn mul_req(self, rhs: u32) -> bool {
        self.spec_x() * rhs <= u32::MAX && self.spec_y() * rhs <= u32::MAX
    }

    open spec fn mul_spec(self, rhs: u32) -> Position {
        Position::spec_new((self.spec_x() * rhs) as u32, (self.spec_y() * rhs) as u32)
    }
}

impl Position {
    pub closed spec fn spec_new(x: u32, y: u32) -> Position {
        Position { x, y }
    }

    /// A position is its two coordinates: equal coordinates give equal
    /// positions, and every position is made from its own.
    pub proof fn lemma_coordinates(p: Position, x: u32, y: u32)
        ensures
            Position::spec_new(x, y).spec_x() == x,
            Position::spec_new(x, y).spec_y() == y,
            p == Position::spec_new(p.spec_x(), p.spec_y()),
            (p == Position::spec_new(x, y)) == (p.spec_x() == x && p.spec_y() == y),
    {
    }
}

} // verus!
