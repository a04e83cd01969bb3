//! The motion and growth engine: one grid step per advance event, with
//! delayed growth applied through a FIFO of countdown requests.

use vstd::prelude::*;
use std::collections::VecDeque;
use crate::field::Field;
use crate::intent::DirectionState;
use crate::pos::{Dir, Pos};

verus! {

/// A scheduled, delayed increase of one body segment: fires when `turns`
/// counts down to zero, re-inserting the captured tail cell.
#[derive(Clone, Copy, PartialEq, Eq, Structural, Debug)]
pub struct Grow {
    pub turns: usize,
    pub pos: Pos,
}

/// The snake: its body cells (head first), its direction state, and the head
/// cell cached for fast comparison against food and bounds.
pub struct Snake {
    pub body: VecDeque<Pos>,
    pub dirs: DirectionState,
    pub grid_pos: Pos,
}

/// One motion step: the head advances one cell in `d` and the tail cell is
/// popped.
pub open spec fn motion(b: Seq<Pos>, d: Dir) -> Seq<Pos>
    recommends
        b.len() >= 1,
{
    seq![b[0].moved(d)] + b.drop_last()
}

/// The requests that stay queued after one advance decrements every counter:
/// those that had more than one turn left, each with one turn fewer.
pub open spec fn survivors(q: Seq<Grow>) -> Seq<Grow>
    decreases q.len(),
{
    if q.len() == 0 {
        Seq::empty()
    } else {
        survivors(q.drop_last()) + if q.last().turns > 1 {
            seq![Grow { turns: (q.last().turns - 1) as usize, pos: q.last().pos }]
        } else {
            Seq::<Grow>::empty()
        }
    }
}

/// The captured cells of the requests whose counter reaches zero this
/// advance, in queue order.
pub open spec fn fired_cells(q: Seq<Grow>) -> Seq<Pos>
    decreases q.len(),
{
    if q.len() == 0 {
        Seq::empty()
    } else {
        fired_cells(q.drop_last()) + if q.last().turns == 1 {
            seq![q.last().pos]
        } else {
            Seq::<Pos>::empty()
        }
    }
}

/// The body after one full advance: the motion step, then every request at
/// threshold appends its captured cell at the tail end.
pub open spec fn advanced_body(b: Seq<Pos>, q: Seq<Grow>, d: Dir) -> Seq<Pos>
    recommends
        b.len() >= 1,
{
    motion(b, d) + fired_cells(q)
}

/// The head cell equals some body cell other than the head.
pub open spec fn hits_tail(b: Seq<Pos>) -> bool {
    exists|i: int| 1 <= i < b.len() && #[trigger] b[i] == b[0]
}

/// Every queued request still has at least one turn left.
pub open spec fn grows_pending(q: Seq<Grow>) -> bool {
    forall|i: int| 0 <= i < q.len() ==> (#[trigger] q[i]).turns >= 1
}

/// Every queued request has at least one turn left and a captured cell
/// inside the field.
pub open spec fn grows_wf(q: Seq<Grow>, field: Field) -> bool {
    &&& grows_pending(q)
    &&& forall|i: int| 0 <= i < q.len() ==> field.contains((#[trigger] q[i]).pos)
}

impl Snake {
    /// Non-empty body, cached head in step with the body, well-formed
    /// direction state, and every cell inside the field.
    pub open spec fn wf(self, field: Field) -> bool {
        &&& self.body@.len() >= 1
        &&& self.grid_pos == self.body@[0]
        &&& self.dirs.wf()
        &&& forall|i: int| 0 <= i < self.body@.len() ==> field.contains(#[trigger] self.body@[i])
    }

    pub fn new(start: Pos, dir: Dir) -> (s: Snake)
        requires
            dir.is_unit(),
        ensures
            s.body@ == seq![start],
            s.dirs == (DirectionState { curr_dir: dir, next_dir: dir }),
            s.grid_pos == start,
    {
        let mut body: VecDeque<Pos> = VecDeque::new();
        body.push_front(start);
        proof {
            assert(body@ =~= seq![start]);
        }
        Snake { body, dirs: DirectionState::new(dir), grid_pos: start }
    }
}

/// Queued growth survives one advance with the right counters: the survivors
/// keep their captured cells in the field and at least one turn.
pub proof fn lemma_survivors_wf(q: Seq<Grow>, field: Field)
    requires
        grows_wf(q, field),
    ensures
        grows_wf(survivors(q), field),
    decreases q.len(),
{
    if q.len() > 0 {
        assert(grows_wf(q.drop_last(), field));
        lemma_survivors_wf(q.drop_last(), field);
    }
}

/// Every cell a firing request appends was captured by some queued request.
pub proof fn lemma_fired_cells_from_queue(q: Seq<Grow>)
    ensures
        forall|j: int|
            0 <= j < fired_cells(q).len() ==> exists|i: int|
                0 <= i < q.len() && q[i].pos == #[trigger] fired_cells(q)[j],
    decreases q.len(),
{
    if q.len() > 0 {
        lemma_fired_cells_from_queue(q.drop_last());
        assert forall|j: int| 0 <= j < fired_cells(q).len() implies exists|i: int|
            0 <= i < q.len() && q[i].pos == #[trigger] fired_cells(q)[j] by {
            if j < fired_cells(q.drop_last()).len() {
                let i = choose|i: int|
                    0 <= i < q.drop_last().len() && q.drop_last()[i].pos == fired_cells(
                        q.drop_last(),
                    )[j];
                assert(q[i].pos == fired_cells(q)[j]);
            } else {
                assert(q[q.len() - 1].pos == fired_cells(q)[j]);
            }
        }
    }
}

/// One advance conserves the sum of body length and queued requests: each
/// firing request leaves the queue and adds exactly one body cell.
pub proof fn lemma_growth_conservation(b: Seq<Pos>, q: Seq<Grow>, d: Dir)
    requires
        b.len() >= 1,
        grows_pending(q),
    ensures
        advanced_body(b, q, d).len() + survivors(q).len() == b.len() + q.len(),
    decreases q.len(),
{
    lemma_fired_survivor_split(q);
}

/// While every request has a turn left, each one either survives or fires,
/// so the two parts add up to the whole queue.
pub proof fn lemma_fired_survivor_split(q: Seq<Grow>)
    requires
        grows_pending(q),
    ensures
        fired_cells(q).len() + survivors(q).len() == q.len(),
    decreases q.len(),
{
    if q.len() > 0 {
        assert(grows_pending(q.drop_last()));
        lemma_fired_survivor_split(q.drop_last());
        assert(q.last().turns >= 1);
    }
}

/// Body length after N advances with nothing queued and no eat events: the
/// length never changes, whatever directions are taken.
pub open spec fn advance_seq(b: Seq<Pos>, ds: Seq<Dir>) -> Seq<Pos>
    decreases ds.len(),
{
    if ds.len() == 0 {
        b
    } else {
        advance_seq(advanced_body(b, Seq::empty(), ds[0]), ds.drop_first())
    }
}

/// With no growth queued and no eats, any number of advances leaves the body
/// length exactly as it started.
pub proof fn lemma_advances_preserve_length(b: Seq<Pos>, ds: Seq<Dir>)
    requires
        b.len() >= 1,
    ensures
        advance_seq(b, ds).len() == b.len(),
    decreases ds.len(),
{
    if ds.len() > 0 {
        let b1 = advanced_body(b, Seq::empty(), ds[0]);
        assert(fired_cells(Seq::<Grow>::empty()) =~= Seq::<Pos>::empty());
        assert(b1.len() == b.len());
        lemma_advances_preserve_length(b1, ds.drop_first());
    }
}

/// Every cell of an advanced body is the new head, an old body cell, or the
/// captured cell of some queued request.
pub proof fn lemma_advanced_body_cells(b: Seq<Pos>, q: Seq<Grow>, d: Dir)
    requires
        b.len() >= 1,
    ensures
        forall|i: int|
            0 <= i < advanced_body(b, q, d).len() ==> {
                ||| #[trigger] advanced_body(b, q, d)[i] == b[0].moved(d)
                ||| b.contains(advanced_body(b, q, d)[i])
                ||| exists|j: int| 0 <= j < q.len() && q[j].pos == advanced_body(b, q, d)[i]
            },
{
    lemma_fired_cells_from_queue(q);
    let b1 = advanced_body(b, q, d);
    let m = motion(b, d);
    assert forall|i: int| 0 <= i < b1.len() implies {
        ||| #[trigger] b1[i] == b[0].moved(d)
        ||| b.contains(b1[i])
        ||| exists|j: int| 0 <= j < q.len() && q[j].pos == b1[i]
    } by {
        if i < m.len() {
            if i == 0 {
                assert(b1[i] == b[0].moved(d));
            } else {
                assert(b1[i] == b.drop_last()[i - 1]);
                assert(b1[i] == b[i - 1]);
                assert(b.contains(b1[i]));
            }
        } else {
            assert(b1[i] == fired_cells(q)[i - m.len()]);
        }
    }
}

/// Whether the head cell equals any body cell other than the head.
pub fn check_hits_tail(body: &VecDeque<Pos>) -> (r: bool)
    requires
        body@.len() >= 1,
    ensures
        r == hits_tail(body@),
{
    let head = body[0];
    let mut i: usize = 1;
    while i < body.len()
        invariant
            1 <= i <= body@.len(),
            head == body@[0],
            forall|j: int| 1 <= j < i ==> #[trigger] body@[j] != body@[0],
        decreases body@.len() - i,
    {
        if body[i] == head {
            proof {
                assert(1 <= i < body@.len() && body@[i as int] == body@[0]);
            }
            return true;
        }
        i = i + 1;
    }
    false
}

/// Apply one advance event to the snake and the growth queue: commit the
/// pending direction, step the head, pop the tail, then decrement every
/// request and append the captured cell of each one reaching zero.
pub fn advance(snake: &mut Snake, grows: &mut Vec<Grow>, field: &Field)
    requires
        field.wf(),
        old(snake).wf(*field),
        grows_wf(old(grows)@, *field),
    ensures
        final(snake).body@ == advanced_body(
            old(snake).body@,
            old(grows)@,
            old(snake).dirs.spec_committed(),
        ),
        final(snake).dirs == (DirectionState {
            curr_dir: old(snake).dirs.spec_committed(),
            next_dir: old(snake).dirs.next_dir,
        }),
        final(snake).dirs.wf(),
        final(snake).grid_pos == old(snake).body@[0].moved(old(snake).dirs.spec_committed()),
        final(snake).grid_pos == final(snake).body@[0],
        final(snake).body@.len() >= 1,
        final(grows)@ == survivors(old(grows)@),
{
    let ghost q0 = grows@;
    let ghost b0 = snake.body@;
    snake.dirs.commit();
    let d = snake.dirs.curr_dir;
    let head = snake.grid_pos;
    let next = Pos { x: head.x + d.dx, y: head.y + d.dy };
    snake.body.push_front(next);
    let _tail = snake.body.pop_back();
    snake.grid_pos = next;
    proof {
        assert(snake.body@ =~= motion(b0, d));
    }
    let mut remaining: Vec<Grow> = Vec::new();
    proof {
        assert(q0.subrange(0, 0) =~= Seq::<Grow>::empty());
        assert(snake.body@ =~= motion(b0, d) + fired_cells(q0.subrange(0, 0)));
        assert(remaining@ =~= survivors(q0.subrange(0, 0)));
    }
    let mut i: usize = 0;
    while i < grows.len()
        invariant
            i <= q0.len(),
            grows@ == q0,
            grows_wf(q0, *field),
            remaining@ == survivors(q0.subrange(0, i as int)),
            snake.body@ == motion(b0, d) + fired_cells(q0.subrange(0, i as int)),
            snake.grid_pos == next,
            snake.dirs == (DirectionState {
                curr_dir: old(snake).dirs.spec_committed(),
                next_dir: old(snake).dirs.next_dir,
            }),
            b0.len() >= 1,
            motion(b0, d)[0] == next,
        decreases q0.len() - i,
    {
        let g = grows[i];
        proof {
            assert(q0.subrange(0, i + 1).drop_last() =~= q0.subrange(0, i as int));
            assert(q0.subrange(0, i + 1).last() == q0[i as int]);
        }
        if g.turns == 1 {
            snake.body.push_back(g.pos);
            proof {
                assert(snake.body@ =~= motion(b0, d) + fired_cells(q0.subrange(0, i + 1)));
                assert(remaining@ =~= survivors(q0.subrange(0, i + 1)));
            }
        } else {
            remaining.push(Grow { turns: g.turns - 1, pos: g.pos });
            proof {
                assert(snake.body@ =~= motion(b0, d) + fired_cells(q0.subrange(0, i + 1)));
                assert(remaining@ =~= survivors(q0.subrange(0, i + 1)));
            }
        }
        i = i + 1;
    }
    proof {
        assert(q0.subrange(0, q0.len() as int) =~= q0);
        assert(snake.body@[0] == next);
    }
    *grows = remaining;
}

} // verus!
