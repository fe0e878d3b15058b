//! The snake entity: an ordered list of segment positions with a heading.

use vstd::prelude::*;

use crate::grid::{Direction, Position, step, stepped};

verus! {

/// The mathematical model of a snake: its segment positions, head first,
/// and the heading the head will take on the next advance.
pub ghost struct SnakeView {
    pub segments: Seq<Position>,
    pub heading: Direction,
}

/// The heading after an intake of `requested`: the request is honoured
/// unless it is the direct reverse of the current heading, which is
/// ignored so the snake can never turn 180° in place.
pub open spec fn heading_after(current: Direction, requested: Direction) -> Direction {
    if requested == current.opposite_spec() {
        current
    } else {
        requested
    }
}

/// The snake: an ordered sequence of occupied grid cells, the head at
/// index 0 and the tail at the last index, plus the current heading.
pub struct Snake {
    segments: Vec<Position>,
    heading: Direction,
}

impl View for Snake {
    type V = SnakeView;

    closed spec fn view(&self) -> SnakeView {
        SnakeView { segments: self.segments@, heading: self.heading }
    }
}

impl Snake {
    /// A fresh two-segment snake: `head` in front, `tail` behind it.
    pub fn new(head: Position, tail: Position, heading: Direction) -> (s: Snake)
        ensures
            s@.segments == seq![head, tail],
            s@.heading == heading,
    {
        let mut segments: Vec<Position> = Vec::new();
        segments.push(head);
        segments.push(tail);
        proof {
            assert(segments@ =~= seq![head, tail]);
        }
        Snake { segments, heading }
    }

    /// How many segments the snake has, the head included.
    pub fn len(&self) -> (n: usize)
        ensures
            n == self@.segments.len(),
    {
        self.segments.len()
    }

    /// The position of segment `i` (0 is the head).
    pub fn segment(&self, i: usize) -> (p: Position)
        requires
            i < self@.segments.len(),
        ensures
            p == self@.segments[i as int],
    {
        self.segments[i]
    }

    /// The head's position.
    pub fn head(&self) -> (p: Position)
        requires
            self@.segments.len() >= 1,
        ensures
            p == self@.segments[0],
    {
        self.segments[0]
    }

    /// The current heading.
    pub fn heading(&self) -> (d: Direction)
        ensures
            d == self@.heading,
    {
        self.heading
    }

    /// A copy of all segment positions, head first.
    pub fn positions(&self) -> (v: Vec<Position>)
        ensures
            v@ == self@.segments,
    {
        let mut v: Vec<Position> = Vec::new();
        let mut i: usize = 0;
        while i < self.segments.len()
            invariant
                i <= self.segments.len(),
                v@ == self@.segments.take(i as int),
            decreases self.segments.len() - i,
        {
            v.push(self.segments[i]);
            i += 1;
            proof {
                assert(v@ =~= self@.segments.take(i as int));
            }
        }
        proof {
            assert(v@ =~= self@.segments);
        }
        v
    }

    /// Turns the head toward `requested` unless that is the direct reverse
    /// of the current heading, in which case the heading is kept.
    pub fn set_heading(&mut self, requested: Direction)
        ensures
            final(self)@.heading == heading_after(old(self)@.heading, requested),
            final(self)@.segments == old(self)@.segments,
    {
        if requested != self.heading.opposite() {
            self.heading = requested;
        }
    }

    /// Advances the snake one cell: the head takes a unit step in the
    /// current heading, and every other segment simultaneously takes the
    /// position its predecessor held before the call, so the whole body
    /// translates coherently in one step. Returns the cell the tail
    /// vacated, for growth to reuse.
    pub fn advance(&mut self) -> (last_tail: Position)
        requires
            old(self)@.segments.len() >= 1,
            i32::MIN < old(self)@.segments[0].x < i32::MAX,
            i32::MIN < old(self)@.segments[0].y < i32::MAX,
        ensures
            final(self)@.heading == old(self)@.heading,
            final(self)@.segments == seq![
                stepped(old(self)@.segments[0], old(self)@.heading)
            ] + old(self)@.segments.drop_last(),
            final(self)@.segments.len() == old(self)@.segments.len(),
            final(self)@.segments[0] == stepped(old(self)@.segments[0], old(self)@.heading),
            forall|i: int|
                1 <= i < old(self)@.segments.len() ==> final(self)@.segments[i] == old(
                    self,
                )@.segments[i - 1],
            last_tail == old(self)@.segments.last(),
    {
        let last_index = self.segments.len() - 1;
        let last_tail = self.segments[last_index];
        let new_head = step(self.segments[0], self.heading);
        self.segments.insert(0, new_head);
        self.segments.pop();
        proof {
            assert(self@.segments =~= seq![
                stepped(old(self)@.segments[0], old(self)@.heading)
            ] + old(self)@.segments.drop_last());
        }
        last_tail
    }

    /// Appends one segment at `p`, the recorded pre-shift tail cell, so a
    /// consumed food item lengthens the body by exactly one.
    pub fn grow_at(&mut self, p: Position)
        ensures
            final(self)@.heading == old(self)@.heading,
            final(self)@.segments == old(self)@.segments.push(p),
    {
        self.segments.push(p);
    }
}

} // verus!
