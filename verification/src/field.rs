//! The bounded rectangular grid that the snake and food occupy.

use vstd::prelude::*;
use crate::pos::Pos;

verus! {

/// Width and height of the standard stage.
pub const STAGE_WIDTH: i32 = 20;
pub const STAGE_HEIGHT: i32 = 20;

/// Largest accepted side length of a field; keeps every coordinate that the
/// simulation can produce well inside `i32`.
pub const MAX_SIDE: i32 = 10000;

/// A bounded rectangular play field: the cells with
/// `min_x <= x < min_x + width` and `min_y <= y < min_y + height`.
#[derive(Clone, Copy, PartialEq, Eq, Structural, Debug)]
pub struct Field {
    pub min_x: i32,
    pub min_y: i32,
    pub width: i32,
    pub height: i32,
}

impl Field {
    pub open spec fn wf(self) -> bool {
        &&& 1 <= self.width <= MAX_SIDE
        &&& 1 <= self.height <= MAX_SIDE
        &&& -MAX_SIDE <= self.min_x <= MAX_SIDE
        &&& -MAX_SIDE <= self.min_y <= MAX_SIDE
    }

    pub open spec fn contains(self, p: Pos) -> bool {
        &&& self.min_x <= p.x < self.min_x + self.width
        &&& self.min_y <= p.y < self.min_y + self.height
    }

    /// The cell at the middle of the field, where a fresh snake starts.
    pub open spec fn spec_center(self) -> Pos {
        Pos { x: (self.min_x + self.width / 2) as i32, y: (self.min_y + self.height / 2) as i32 }
    }

    /// A field of the given size whose cell coordinates straddle the origin.
    pub fn centered(width: i32, height: i32) -> (f: Field)
        requires
            1 <= width <= MAX_SIDE,
            1 <= height <= MAX_SIDE,
        ensures
            f.wf(),
            f.width == width,
            f.height == height,
            f.min_x == -(width / 2),
            f.min_y == -(height / 2),
    {
        Field { min_x: -(width / 2), min_y: -(height / 2), width, height }
    }

    pub fn contains_pos(&self, p: Pos) -> (r: bool)
        requires
            self.wf(),
        ensures
            r == self.contains(p),
    {
        p.x >= self.min_x && p.x < self.min_x + self.width && p.y >= self.min_y
            && p.y < self.min_y + self.height
    }

    pub fn center(&self) -> (p: Pos)
        requires
            self.wf(),
        ensures
            p == self.spec_center(),
            self.contains(p),
    {
        Pos { x: self.min_x + self.width / 2, y: self.min_y + self.height / 2 }
    }
}

} // verus!
