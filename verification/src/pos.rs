//! Grid cells and axis-aligned unit direction vectors.

use vstd::prelude::*;

verus! {

/// A cell of the play field, as signed integer coordinates.
#[derive(Clone, Copy, PartialEq, Eq, Structural, Debug)]
pub struct Pos {
    pub x: i32,
    pub y: i32,
}

/// A movement direction, one grid step per advance.
#[derive(Clone, Copy, PartialEq, Eq, Structural, Debug)]
pub struct Dir {
    pub dx: i32,
    pub dy: i32,
}

impl Dir {
    /// Exactly one axis is non-zero, and by one.
    pub open spec fn is_unit(self) -> bool {
        ||| (self.dx == 0 && (self.dy == 1 || self.dy == -1))
        ||| (self.dy == 0 && (self.dx == 1 || self.dx == -1))
    }

    /// `other` is the exact negation of `self`.
    pub open spec fn spec_is_opposite(self, other: Dir) -> bool {
        self.dx == -(other.dx as int) && self.dy == -(other.dy as int)
    }

    pub fn is_opposite(&self, other: &Dir) -> (r: bool)
        requires
            self.is_unit(),
            other.is_unit(),
        ensures
            r == self.spec_is_opposite(*other),
    {
        self.dx == -other.dx && self.dy == -other.dy
    }
}

impl Pos {
    /// The cell one step away in direction `d`.
    pub open spec fn moved(self, d: Dir) -> Pos {
        Pos { x: (self.x + d.dx) as i32, y: (self.y + d.dy) as i32 }
    }
}

} // verus!
