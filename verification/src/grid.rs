//! Grid coordinates and the four-way heading.

use vstd::prelude::*;

verus! {

/// A grid cell address. Equality is exact coordinate equality; the value is
/// copied freely and doubles as a lookup key.
#[derive(Clone, Copy, PartialEq, Eq, Structural, Debug)]
pub struct Position {
    pub x: i32,
    pub y: i32,
}

/// One of the four headings the snake's head can take.
#[derive(Clone, Copy, PartialEq, Eq, Structural, Debug)]
pub enum Direction {
    Left,
    Up,
    Right,
    Down,
}

impl Direction {
    /// The reverse of a heading, used to forbid an instantaneous 180° turn.
    pub open spec fn opposite_spec(self) -> Direction {
        match self {
            Direction::Up => Direction::Down,
            Direction::Right => Direction::Left,
            Direction::Down => Direction::Up,
            Direction::Left => Direction::Right,
        }
    }

    /// The reverse of a heading.
    #[verifier::when_used_as_spec(opposite_spec)]
    pub fn opposite(self) -> (r: Direction)
        ensures
            r == self.opposite_spec(),
    {
        match self {
            Direction::Up => Direction::Down,
            Direction::Right => Direction::Left,
            Direction::Down => Direction::Up,
            Direction::Left => Direction::Right,
        }
    }
}

/// The cell one unit step from `p` in direction `d`: `Up` raises `y` by one,
/// `Down` lowers it, `Right` raises `x`, `Left` lowers it.
pub open spec fn stepped(p: Position, d: Direction) -> Position {
    match d {
        Direction::Up => Position { x: p.x, y: (p.y + 1) as i32 },
        Direction::Down => Position { x: p.x, y: (p.y - 1) as i32 },
        Direction::Right => Position { x: (p.x + 1) as i32, y: p.y },
        Direction::Left => Position { x: (p.x - 1) as i32, y: p.y },
    }
}

/// Applies a unit step in direction `d` to `p`.
pub fn step(p: Position, d: Direction) -> (r: Position)
    requires
        i32::MIN < p.x < i32::MAX,
        i32::MIN < p.y < i32::MAX,
    ensures
        r == stepped(p, d),
{
    match d {
        Direction::Up => Position { x: p.x, y: p.y + 1 },
        Direction::Down => Position { x: p.x, y: p.y - 1 },
        Direction::Right => Position { x: p.x + 1, y: p.y },
        Direction::Left => Position { x: p.x - 1, y: p.y },
    }
}

/// Whether `p` lies strictly inside a walled arena of `width` by `height`
/// cells, that is within the playable interior `[1, width - 2]` by
/// `[1, height - 2]` that the border wall frames.
pub open spec fn in_interior(p: Position, width: i32, height: i32) -> bool {
    1 <= p.x < width - 1 && 1 <= p.y < height - 1
}

/// Whether `p` lies strictly inside the walled interior of a `width` by
/// `height` arena.
pub fn is_in_interior(p: Position, width: i32, height: i32) -> (r: bool)
    requires
        i32::MIN < width,
        i32::MIN < height,
    ensures
        r == in_interior(p, width, height),
{
    1 <= p.x && p.x < width - 1 && 1 <= p.y && p.y < height - 1
}

/// Whether `p` is one of the border cells of a `width` by `height` arena:
/// inside the addressable grid but on its outermost ring, where the static
/// wall bricks stand.
pub open spec fn on_border(p: Position, width: i32, height: i32) -> bool {
    &&& 0 <= p.x < width
    &&& 0 <= p.y < height
    &&& (p.x == 0 || p.x == width - 1 || p.y == 0 || p.y == height - 1)
}

/// Whether any cell in `v` equals `p`.
pub fn contains_position(v: &Vec<Position>, p: Position) -> (r: bool)
    ensures
        r == v@.contains(p),
{
    let mut i: usize = 0;
    while i < v.len()
        invariant
            i <= v.len(),
            forall|j: int| 0 <= j < i ==> v@[j] != p,
        decreases v.len() - i,
    {
        if v[i] == p {
            proof {
                assert(v@[i as int] == p);
            }
            return true;
        }
        i += 1;
    }
    false
}

} // verus!
