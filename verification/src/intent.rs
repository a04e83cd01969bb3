//! The intent resolver: reduces the four pressed movement axes to a single
//! buffered pending direction, rejecting an exact reversal.

use vstd::prelude::*;
use crate::pos::Dir;

verus! {

/// The direction applied this tick and the one buffered from input for the
/// next tick.
#[derive(Clone, Copy, PartialEq, Eq, Structural, Debug)]
pub struct DirectionState {
    pub curr_dir: Dir,
    pub next_dir: Dir,
}

/// The candidate direction read off the four movement axes: the horizontal
/// axis takes priority when both are non-zero; `None` when no axis is held.
pub open spec fn spec_candidate(up: bool, down: bool, left: bool, right: bool) -> Option<Dir> {
    let hor: int = (if right { 1int } else { 0int }) - (if left { 1int } else { 0int });
    let ver: int = (if up { 1int } else { 0int }) - (if down { 1int } else { 0int });
    if hor == 0 && ver == 0 {
        None
    } else if hor != 0 {
        Some(Dir { dx: hor as i32, dy: 0 })
    } else {
        Some(Dir { dx: 0, dy: ver as i32 })
    }
}

/// What the resolver leaves in the direction state: the candidate overwrites
/// the pending direction unless it is absent or exactly reverses the current
/// direction.
pub open spec fn spec_resolve(
    s: DirectionState,
    up: bool,
    down: bool,
    left: bool,
    right: bool,
) -> DirectionState {
    match spec_candidate(up, down, left, right) {
        None => s,
        Some(c) => if c.spec_is_opposite(s.curr_dir) {
            s
        } else {
            DirectionState { curr_dir: s.curr_dir, next_dir: c }
        },
    }
}

impl DirectionState {
    /// Both directions are unit axis vectors and the pending one never
    /// exactly reverses the current one.
    pub open spec fn wf(self) -> bool {
        &&& self.curr_dir.is_unit()
        &&& self.next_dir.is_unit()
        &&& !self.next_dir.spec_is_opposite(self.curr_dir)
    }

    pub fn new(start: Dir) -> (s: DirectionState)
        requires
            start.is_unit(),
        ensures
            s == (DirectionState { curr_dir: start, next_dir: start }),
            s.wf(),
    {
        DirectionState { curr_dir: start, next_dir: start }
    }

    /// The intent resolver: buffer the candidate direction built from the
    /// pressed axes, leaving the buffer unchanged when no axis is held or
    /// when the candidate exactly reverses the current direction.
    pub fn apply_input(&mut self, up: bool, down: bool, left: bool, right: bool)
        requires
            old(self).wf(),
        ensures
            *final(self) == spec_resolve(*old(self), up, down, left, right),
            final(self).wf(),
            final(self).curr_dir == old(self).curr_dir,
    {
        let hor: i32 = if right && !left {
            1
        } else if left && !right {
            -1
        } else {
            0
        };
        let ver: i32 = if up && !down {
            1
        } else if down && !up {
            -1
        } else {
            0
        };
        if hor == 0 && ver == 0 {
            return ;
        }
        let cand = if hor != 0 {
            Dir { dx: hor, dy: 0 }
        } else {
            Dir { dx: 0, dy: ver }
        };
        if !cand.is_opposite(&self.curr_dir) {
            self.next_dir = cand;
        }
    }

    /// Commit the pending direction, re-checking the reversal guard: the
    /// current direction becomes the pending one unless that would be an
    /// exact reversal.
    pub open spec fn spec_committed(self) -> Dir {
        if self.next_dir.spec_is_opposite(self.curr_dir) {
            self.curr_dir
        } else {
            self.next_dir
        }
    }

    pub fn commit(&mut self)
        requires
            old(self).wf(),
        ensures
            final(self).curr_dir == old(self).spec_committed(),
            final(self).next_dir == old(self).next_dir,
            final(self).wf(),
    {
        if !self.next_dir.is_opposite(&self.curr_dir) {
            self.curr_dir = self.next_dir;
        }
    }
}

/// A non-zero input direction that exactly reverses the current direction
/// leaves the pending direction, and the whole state, unchanged.
pub proof fn lemma_reversal_rejected(
    s: DirectionState,
    up: bool,
    down: bool,
    left: bool,
    right: bool,
    d: Dir,
)
    requires
        spec_candidate(up, down, left, right) == Some(d),
        d.spec_is_opposite(s.curr_dir),
    ensures
        spec_resolve(s, up, down, left, right) == s,
        spec_resolve(s, up, down, left, right).next_dir == s.next_dir,
{
}

} // verus!
