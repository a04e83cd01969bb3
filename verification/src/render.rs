//! The render boundary: the occupied cells tagged by kind, and the literal
//! UI strings, for the embedding layer to draw.

use vstd::prelude::*;
use crate::game::{Food, Game};
use crate::pos::Pos;

verus! {

/// What occupies a cell, for glyph selection by the drawing layer.
#[derive(Clone, Copy, PartialEq, Eq, Structural, Debug)]
pub enum CellKind {
    BodySegment,
    FoodItem,
}

/// One occupied cell to draw.
#[derive(Clone, Copy, PartialEq, Eq, Structural, Debug)]
pub struct Cell {
    pub pos: Pos,
    pub kind: CellKind,
}

/// The cell the live food occupies, if any.
pub open spec fn food_cells(food: Option<Food>) -> Seq<Cell> {
    match food {
        None => Seq::empty(),
        Some(f) => seq![Cell { pos: f.pos, kind: CellKind::FoodItem }],
    }
}

/// The body cells in order, tagged as body segments.
pub open spec fn body_cells(b: Seq<Pos>) -> Seq<Cell>
    decreases b.len(),
{
    if b.len() == 0 {
        Seq::empty()
    } else {
        body_cells(b.drop_last()).push(Cell { pos: b.last(), kind: CellKind::BodySegment })
    }
}

impl Game {
    /// The full set of occupied cells for one frame, food first so that body
    /// segments overdraw it; empty while no snake is alive.
    pub fn cells(&self) -> (r: Vec<Cell>)
        ensures
            self.snake is None ==> r@ == Seq::<Cell>::empty(),
            self.snake matches Some(s) ==> r@ == food_cells(self.food) + body_cells(s.body@),
    {
        let mut r: Vec<Cell> = Vec::new();
        match &self.snake {
            None => r,
            Some(s) => {
                match &self.food {
                    Some(f) => {
                        r.push(Cell { pos: f.pos, kind: CellKind::FoodItem });
                    },
                    None => {},
                }
                proof {
                    assert(r@ =~= food_cells(self.food));
                    assert(s.body@.subrange(0, 0) =~= Seq::<Pos>::empty());
                    assert(r@ =~= food_cells(self.food) + body_cells(s.body@.subrange(0, 0)));
                }
                let mut i: usize = 0;
                while i < s.body.len()
                    invariant
                        i <= s.body@.len(),
                        r@ == food_cells(self.food) + body_cells(s.body@.subrange(0, i as int)),
                    decreases s.body@.len() - i,
                {
                    r.push(Cell { pos: s.body[i], kind: CellKind::BodySegment });
                    proof {
                        assert(s.body@.subrange(0, i + 1).drop_last() =~= s.body@.subrange(
                            0,
                            i as int,
                        ));
                        assert(s.body@.subrange(0, i + 1).last() == s.body@[i as int]);
                        assert(r@ =~= food_cells(self.food) + body_cells(
                            s.body@.subrange(0, i + 1),
                        ));
                    }
                    i = i + 1;
                }
                proof {
                    assert(s.body@.subrange(0, s.body@.len() as int) =~= s.body@);
                }
                r
            },
        }
    }
}

/// The title banner shown over the stage.
pub fn title_text() -> (r: &'static str)
    ensures
        r@ == "ASCII SNAKE"@,
{
    "ASCII SNAKE"
}

/// The movement hint shown on the begin screen.
pub fn help_text() -> (r: &'static str)
    ensures
        r@ == "Use WASD to move"@,
{
    "Use WASD to move"
}

/// The start hint shown on the begin screen.
pub fn begin_text() -> (r: &'static str)
    ensures
        r@ == "Press Space to Begin"@,
{
    "Press Space to Begin"
}

/// The end-of-round message shown when the snake dies.
pub fn game_over_text() -> (r: &'static str)
    ensures
        r@ == "Game Over!\nPress Space to Restart"@,
{
    "Game Over!\nPress Space to Restart"
}

} // verus!
