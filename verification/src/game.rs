//! The world state manager: the Begin/Playing state machine, food placement,
//! the eat check and the death check, driven once per frame.

use vstd::prelude::*;
use std::collections::VecDeque;
use crate::clock::{TickRate, INITIAL_TICK_MS};
use crate::engine::{
    advance, advanced_body, check_hits_tail, fired_cells, grows_wf, hits_tail,
    lemma_advanced_body_cells, lemma_fired_survivor_split, lemma_survivors_wf, motion, survivors,
    Grow, Snake,
};
use crate::field::Field;
use crate::intent::{spec_resolve, DirectionState};
use crate::pos::{Dir, Pos};
use crate::rng::{new_rng, sample_range};

verus! {

/// The game phase: idle and awaiting a start signal, or running the full
/// per-frame pipeline.
#[derive(Clone, Copy, PartialEq, Eq, Structural, Debug)]
pub enum Phase {
    Begin,
    Playing,
}

/// The zero-or-one live food item.
#[derive(Clone, Copy, PartialEq, Eq, Structural, Debug)]
pub struct Food {
    pub pos: Pos,
}

/// The per-frame input: the start signal and the four movement axes, already
/// deduplicated across equivalent key bindings.
#[derive(Clone, Copy, PartialEq, Eq, Structural, Debug)]
pub struct FrameInput {
    pub start: bool,
    pub up: bool,
    pub down: bool,
    pub left: bool,
    pub right: bool,
}

/// The named sound events one frame can emit, fire-and-forget.
#[derive(Clone, Copy, PartialEq, Eq, Structural, Debug)]
pub struct FrameOutput {
    pub ready: bool,
    pub nom: bool,
    pub ouch: bool,
}

/// The direction a fresh snake starts moving in.
pub open spec fn start_dir() -> Dir {
    Dir { dx: 0, dy: 1 }
}

/// The whole simulation context: one logical update per rendering frame.
pub struct Game {
    pub field: Field,
    pub phase: Phase,
    pub snake: Option<Snake>,
    pub food: Option<Food>,
    pub grows: Vec<Grow>,
    pub score: usize,
    pub tick: TickRate,
}

/// The direction state after the intent resolver ran on this frame's input.
pub open spec fn spec_dirs1(g: Game, input: FrameInput) -> DirectionState
    recommends
        g.snake is Some,
{
    spec_resolve(g.snake->0.dirs, input.up, input.down, input.left, input.right)
}

/// The direction actually committed on an advance this frame.
pub open spec fn spec_dir1(g: Game, input: FrameInput) -> Dir
    recommends
        g.snake is Some,
{
    spec_dirs1(g, input).spec_committed()
}

/// The body after this frame's advance: motion step plus any growth firing.
pub open spec fn spec_body1(g: Game, input: FrameInput) -> Seq<Pos>
    recommends
        g.snake is Some,
{
    advanced_body(g.snake->0.body@, g.grows@, spec_dir1(g, input))
}

/// The head cell after this frame's advance.
pub open spec fn spec_head1(g: Game, input: FrameInput) -> Pos
    recommends
        g.snake is Some,
{
    g.snake->0.body@[0].moved(spec_dir1(g, input))
}

/// Whether this frame's advance lands the head on the live food.
pub open spec fn spec_ate(g: Game, input: FrameInput) -> bool
    recommends
        g.snake is Some,
{
    g.food matches Some(f) && f.pos == spec_head1(g, input)
}

/// Whether this frame's advance leaves the field or hits the body.
pub open spec fn spec_dead(g: Game, input: FrameInput) -> bool
    recommends
        g.snake is Some,
{
    !g.field.contains(spec_head1(g, input)) || hits_tail(spec_body1(g, input))
}

impl Game {
    /// The internal invariant every frame re-establishes.
    pub open spec fn wf(self) -> bool {
        &&& self.field.wf()
        &&& self.tick.wf()
        &&& (self.phase is Playing <==> self.snake is Some)
        &&& (self.phase is Begin ==> self.food is None)
        &&& (self.snake matches Some(s) ==> s.wf(self.field))
        &&& (self.food matches Some(f) ==> self.field.contains(f.pos))
        &&& grows_wf(self.grows@, self.field)
        &&& (self.snake matches Some(s) ==> self.score + 1 == s.body@.len() + self.grows@.len())
    }

    /// The live food cell is not inside the snake's body.
    pub open spec fn food_clear(self) -> bool {
        self.food matches Some(f) ==> (self.snake matches Some(s) ==> !s.body@.contains(f.pos))
    }

    /// No queued growth request captured the live food's cell.
    pub open spec fn grows_clear(self) -> bool {
        self.food matches Some(f) ==> forall|i: int|
            0 <= i < self.grows@.len() ==> (#[trigger] self.grows@[i]).pos != f.pos
    }

    /// A fresh game on the given field, idle until the start signal.
    pub fn new(field: Field) -> (g: Game)
        requires
            field.wf(),
        ensures
            g.wf(),
            g.field == field,
            g.phase is Begin,
            g.snake is None,
            g.food is None,
            g.grows@ == Seq::<Grow>::empty(),
            g.score == 0,
            g.tick == (TickRate { interval_ms: INITIAL_TICK_MS, elapsed_ms: 0 }),
    {
        Game {
            field,
            phase: Phase::Begin,
            snake: None,
            food: None,
            grows: Vec::new(),
            score: 0,
            tick: TickRate::new(),
        }
    }

    /// One logical update, in fixed stage order: intent resolver, tick clock,
    /// motion and growth, then the world state manager (food spawn, eat
    /// check, death check). Returns the sound events this frame emits.
    pub fn update(&mut self, input: FrameInput, delta_ms: u64) -> (out: FrameOutput)
        requires
            old(self).wf(),
            old(self).phase is Playing ==> old(self).score < usize::MAX,
        ensures
            final(self).wf(),
            final(self).field == old(self).field,
            // idle: the Begin phase only watches for the start signal
            (old(self).phase is Begin && !input.start) ==> *final(self) == *old(self) && out == (
            FrameOutput { ready: false, nom: false, ouch: false }),
            // the start signal spawns a fresh snake and resets score and clock
            (old(self).phase is Begin && input.start) ==> ({
                &&& final(self).phase is Playing
                &&& final(self).snake matches Some(s) && s.body@ == seq![
                    old(self).field.spec_center(),
                ] && s.grid_pos == old(self).field.spec_center() && s.dirs == (DirectionState {
                    curr_dir: start_dir(),
                    next_dir: start_dir(),
                })
                &&& final(self).food is None
                &&& final(self).grows@ == Seq::<Grow>::empty()
                &&& final(self).score == 0
                &&& final(self).tick == (TickRate { interval_ms: INITIAL_TICK_MS, elapsed_ms: 0 })
                &&& out == (FrameOutput { ready: true, nom: false, ouch: false })
            }),
            // no advance fired: only the pending direction, the clock and a
            // possible food spawn change
            (old(self).phase is Playing && !old(self).tick.spec_fires(delta_ms)) ==> ({
                &&& final(self).phase is Playing
                &&& final(self).snake matches Some(s) && s.body@ == old(self).snake->0.body@
                    && s.grid_pos == old(self).snake->0.grid_pos && s.dirs == spec_dirs1(
                    *old(self),
                    input,
                )
                &&& final(self).grows@ == old(self).grows@
                &&& final(self).score == old(self).score
                &&& final(self).tick == old(self).tick.spec_ticked(delta_ms)
                &&& (old(self).food is Some ==> final(self).food == old(self).food)
                &&& (old(self).food is None ==> ({
                    ||| ({
                        &&& final(self).food matches Some(f)
                        &&& old(self).field.contains(f.pos)
                        &&& !old(self).snake->0.body@.contains(f.pos)
                    })
                    ||| ({
                        &&& final(self).food is None
                        &&& body_fills_field(old(self).field, old(self).snake->0.body@)
                    })
                }))
                &&& out == (FrameOutput { ready: false, nom: false, ouch: false })
            }),
            // an advance fired: motion, growth, food spawn, eat check, death check
            (old(self).phase is Playing && old(self).tick.spec_fires(delta_ms)) ==> ({
                let g0 = *old(self);
                let b1 = spec_body1(g0, input);
                let head1 = spec_head1(g0, input);
                let ate = spec_ate(g0, input);
                let dead = spec_dead(g0, input);
                &&& final(self).score == g0.score + (if ate {
                    1int
                } else {
                    0int
                })
                &&& final(self).tick == (if ate {
                    g0.tick.spec_ticked(delta_ms).spec_accelerated()
                } else {
                    g0.tick.spec_ticked(delta_ms)
                })
                &&& final(self).grows@ == (if ate {
                    survivors(g0.grows@).push(
                        Grow { turns: (g0.score + 1) as usize, pos: b1.last() },
                    )
                } else {
                    survivors(g0.grows@)
                })
                &&& out == (FrameOutput { ready: false, nom: ate, ouch: dead })
                &&& (dead ==> final(self).phase is Begin && final(self).snake is None
                    && final(self).food is None)
                &&& (!dead ==> {
                    &&& final(self).phase is Playing
                    &&& final(self).snake matches Some(s) && s.body@ == b1 && s.grid_pos == head1
                        && s.dirs == (DirectionState {
                        curr_dir: spec_dir1(g0, input),
                        next_dir: spec_dirs1(g0, input).next_dir,
                    })
                    &&& (ate ==> final(self).food is None)
                    &&& (!ate && g0.food is Some ==> final(self).food == g0.food)
                    &&& (!ate && g0.food is None ==> ({
                        ||| ({
                            &&& final(self).food matches Some(f)
                            &&& g0.field.contains(f.pos)
                            &&& !b1.contains(f.pos)
                        })
                        ||| (final(self).food is None && body_fills_field(g0.field, b1))
                    }))
                })
            }),
            // spawn invariant: food stays out of the body, provided no queued
            // request captured the current food cell
            (old(self).food_clear() && old(self).grows_clear()) ==> final(self).food_clear(),
            // the interval never increases except on a restart
            !(old(self).phase is Begin && input.start)
                ==> final(self).tick.interval_ms <= old(self).tick.interval_ms,
    {
        let ghost g0 = *old(self);
        match self.phase {
            Phase::Begin => {
                if input.start {
                    let start = self.field.center();
                    let snake = Snake::new(start, Dir { dx: 0, dy: 1 });
                    self.snake = Some(snake);
                    self.grows.clear();
                    self.score = 0;
                    self.tick = TickRate::new();
                    self.phase = Phase::Playing;
                    FrameOutput { ready: true, nom: false, ouch: false }
                } else {
                    FrameOutput { ready: false, nom: false, ouch: false }
                }
            },
            Phase::Playing => {
                let mut snake = self.snake.take().unwrap();
                let ghost b0 = snake.body@;
                let ghost q0 = self.grows@;
                snake.dirs.apply_input(input.up, input.down, input.left, input.right);
                let fired = self.tick.tick(delta_ms);
                let mut nom = false;
                let mut ouch = false;
                if fired {
                    advance(&mut snake, &mut self.grows, &self.field);
                    let ghost b1 = snake.body@;
                    let ghost d1 = spec_dir1(g0, input);
                    let ghost head1 = spec_head1(g0, input);
                    proof {
                        assert(b1 == spec_body1(g0, input));
                        assert(snake.grid_pos == head1);
                        lemma_advanced_body_cells(b0, q0, d1);
                        assert(b1[0] == head1);
                        assert(b1.contains(head1));
                    }
                    // food spawn
                    if self.food.is_none() {
                        match place_food(&self.field, &snake.body) {
                            Some(p) => { self.food = Some(Food { pos: p }); },
                            None => {},
                        }
                    }
                    // eat check
                    let ate = match &self.food {
                        Some(f) => f.pos == snake.grid_pos,
                        None => false,
                    };
                    proof {
                        assert(ate == spec_ate(g0, input));
                    }
                    if ate {
                        self.score = self.score + 1;
                        self.food = None;
                        let last_i = snake.body.len() - 1;
                        let captured = snake.body[last_i];
                        proof {
                            assert(captured == b1.last());
                            lemma_captured_in_field(g0, input);
                        }
                        self.grows.push(Grow { turns: self.score, pos: captured });
                        self.tick.accelerate();
                        nom = true;
                    }
                    // death check
                    let dead = !self.field.contains_pos(snake.grid_pos) || check_hits_tail(
                        &snake.body,
                    );
                    proof {
                        assert(dead == spec_dead(g0, input));
                        lemma_survivors_wf(q0, g0.field);
                        lemma_fired_survivor_split(q0);
                    }
                    if dead {
                        self.phase = Phase::Begin;
                        self.food = None;
                        ouch = true;
                    } else {
                        proof {
                            assert forall|i: int| 0 <= i < b1.len() implies g0.field.contains(
                                #[trigger] b1[i],
                            ) by {
                                if b1[i] == head1 {
                                    assert(g0.field.contains(head1));
                                } else if b0.contains(b1[i]) {
                                    let j = choose|j: int|
                                        0 <= j < b0.len() && b0[j] == b1[i];
                                    assert(g0.field.contains(b0[j]));
                                } else {
                                    let j = choose|j: int|
                                        0 <= j < q0.len() && q0[j].pos == b1[i];
                                    assert(g0.field.contains(q0[j].pos));
                                }
                            }
                        }
                        self.snake = Some(snake);
                    }
                } else {
                    // food spawn still runs on frames with no advance
                    if self.food.is_none() {
                        match place_food(&self.field, &snake.body) {
                            Some(p) => { self.food = Some(Food { pos: p }); },
                            None => {},
                        }
                    }
                    self.snake = Some(snake);
                }
                FrameOutput { ready: false, nom, ouch }
            },
        }
    }
}

/// How many uniform random samples food placement makes before it falls back
/// to an exhaustive scan of the field.
pub const FOOD_SAMPLE_TRIES: usize = 64;

/// The field cell with the given row-major index.
pub open spec fn cell_at(field: Field, j: int) -> Pos
    recommends
        field.width >= 1,
{
    Pos {
        x: (field.min_x + j % (field.width as int)) as i32,
        y: (field.min_y + j / (field.width as int)) as i32,
    }
}

/// The degenerate case in which no food can be placed: the body occupies
/// every cell of the field.
pub open spec fn body_fills_field(field: Field, b: Seq<Pos>) -> bool {
    forall|p: Pos| field.contains(p) ==> b.contains(p)
}

/// A cell for fresh food: inside the field and outside the snake's body.
/// Samples uniformly random cells first; if those all land on the body, it
/// scans the whole field, so it comes back empty only in the degenerate case
/// of a body covering every field cell.
pub fn place_food(field: &Field, body: &VecDeque<Pos>) -> (r: Option<Pos>)
    requires
        field.wf(),
    ensures
        r matches Some(p) ==> field.contains(p) && !body@.contains(p),
        r is None ==> body_fills_field(*field, body@),
{
    let mut rng = new_rng();
    let mut tries: usize = 0;
    while tries < FOOD_SAMPLE_TRIES
        invariant
            field.wf(),
        decreases FOOD_SAMPLE_TRIES - tries,
    {
        let x = sample_range(&mut rng, field.min_x, field.min_x + field.width);
        let y = sample_range(&mut rng, field.min_y, field.min_y + field.height);
        let p = Pos { x, y };
        if !contains_cell(body, p) {
            return Some(p);
        }
        tries = tries + 1;
    }
    proof {
        assert(field.width * field.height <= 100_000_000) by (nonlinear_arith)
            requires
                1 <= field.width <= 10_000,
                1 <= field.height <= 10_000,
        ;
    }
    let total: i32 = field.width * field.height;
    let mut k: i32 = 0;
    while k < total
        invariant
            field.wf(),
            total == field.width * field.height,
            0 <= k <= total,
            forall|j: int| 0 <= j < k ==> body@.contains(#[trigger] cell_at(*field, j)),
        decreases total - k,
    {
        proof {
            assert(0 <= (k as int) / (field.width as int) < field.height) by (nonlinear_arith)
                requires
                    0 <= k < total,
                    total == field.width * field.height,
                    1 <= field.width,
                    1 <= field.height,
            ;
        }
        let x = field.min_x + k % field.width;
        let y = field.min_y + k / field.width;
        let p = Pos { x, y };
        proof {
            assert(p == cell_at(*field, k as int));
        }
        if !contains_cell(body, p) {
            return Some(p);
        }
        k = k + 1;
    }
    proof {
        assert forall|p: Pos| field.contains(p) implies body@.contains(p) by {
            let w = field.width as int;
            let a = p.x - field.min_x;
            let b = p.y - field.min_y;
            let j = a + b * w;
            assert(0 <= j < total) by (nonlinear_arith)
                requires
                    0 <= a < w,
                    0 <= b < field.height,
                    total == w * field.height,
                    j == a + b * w,
            ;
            vstd::arithmetic::div_mod::lemma_fundamental_div_mod_converse_mod(j, w, b, a);
            vstd::arithmetic::div_mod::lemma_fundamental_div_mod_converse_div(j, w, b, a);
            assert(cell_at(*field, j) == p);
            assert(body@.contains(cell_at(*field, j)));
        }
    }
    None
}

/// Whether the body occupies the given cell.
pub fn contains_cell(body: &VecDeque<Pos>, p: Pos) -> (r: bool)
    ensures
        r == body@.contains(p),
{
    let mut i: usize = 0;
    while i < body.len()
        invariant
            i <= body@.len(),
            forall|j: int| 0 <= j < i ==> body@[j] != p,
        decreases body@.len() - i,
    {
        if body[i] == p {
            proof {
                assert(body@[i as int] == p);
            }
            return true;
        }
        i = i + 1;
    }
    false
}

/// The captured tail cell an eat records lies inside the field: it is either
/// a firing request's cell, an old body cell, or the head that just ate the
/// food, which sits on the food's in-field cell.
proof fn lemma_captured_in_field(g0: Game, input: FrameInput)
    requires
        g0.wf(),
        g0.phase is Playing,
        spec_ate(g0, input),
    ensures
        g0.field.contains(spec_body1(g0, input).last()),
{
    let b0 = g0.snake->0.body@;
    let q0 = g0.grows@;
    let d1 = spec_dir1(g0, input);
    let b1 = spec_body1(g0, input);
    let m = motion(b0, d1);
    let f = fired_cells(q0);
    crate::engine::lemma_fired_cells_from_queue(q0);
    if f.len() > 0 {
        assert(b1.last() == f[f.len() - 1]);
        let j = choose|j: int| 0 <= j < q0.len() && q0[j].pos == f[f.len() - 1];
        assert(g0.field.contains(q0[j].pos));
    } else {
        assert(b1 =~= m);
        if b0.len() >= 2 {
            assert(m.last() == b0.drop_last()[b0.len() - 2]);
            assert(m.last() == b0[b0.len() - 2]);
            assert(g0.field.contains(b0[b0.len() - 2]));
        } else {
            assert(m.last() == b0[0].moved(d1));
            assert(b1.last() == spec_head1(g0, input));
            assert(g0.food matches Some(fd) && fd.pos == spec_head1(g0, input));
            assert(g0.field.contains(g0.food->0.pos));
        }
    }
}

/// Once every pending growth request has resolved, the body length equals the
/// spawn length of one plus the number of eat events since the spawn.
pub proof fn lemma_resolved_growth_length(g: Game)
    requires
        g.wf(),
        g.phase is Playing,
        g.grows@.len() == 0,
    ensures
        g.snake->0.body@.len() == 1 + g.score,
{
}

} // verus!
