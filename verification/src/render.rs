//! The read-only render feed: a post-tick snapshot of every occupied grid
//! cell with its logical category, for an external renderer to map to
//! screen coordinates.

use vstd::prelude::*;

use crate::game::{Game, GameView};
use crate::grid::Position;

verus! {

/// The logical category of an occupied cell, in place of any screen-space
/// size or colour: what the renderer needs to pick a sprite.
#[derive(Clone, Copy, PartialEq, Eq, Structural, Debug)]
pub enum CellKind {
    /// The snake's frontmost segment.
    Head,
    /// Any other snake segment.
    Body,
    /// The active food item.
    Food,
    /// A static wall brick.
    Wall,
}

/// One occupied grid cell of the snapshot.
#[derive(Clone, Copy, PartialEq, Eq, Structural, Debug)]
pub struct Cell {
    pub pos: Position,
    pub kind: CellKind,
}

/// The snake's cells in order: the head first, then each body segment.
pub open spec fn segment_cells(segments: Seq<Position>) -> Seq<Cell> {
    Seq::new(
        segments.len(),
        |i: int|
            Cell {
                pos: segments[i],
                kind: if i == 0 {
                    CellKind::Head
                } else {
                    CellKind::Body
                },
            },
    )
}

/// The active food as a cell sequence: empty when none is outstanding.
pub open spec fn food_cells(food: Option<Position>) -> Seq<Cell> {
    match food {
        Some(p) => seq![Cell { pos: p, kind: CellKind::Food }],
        None => Seq::empty(),
    }
}

/// The wall bricks as cells, in the wall set's own order.
pub open spec fn wall_cells(walls: Seq<Position>) -> Seq<Cell> {
    Seq::new(walls.len(), |i: int| Cell { pos: walls[i], kind: CellKind::Wall })
}

/// The whole snapshot a game presents to a renderer: the snake's cells
/// head first, then the food if one is outstanding, then the wall bricks.
pub open spec fn snapshot_view(g: GameView) -> Seq<Cell> {
    segment_cells(g.segments) + food_cells(g.food) + wall_cells(g.walls)
}

/// Takes the read-only snapshot of `game`: every live entity's position
/// and category, exactly `snapshot_view` of the game's model.
pub fn snapshot(game: &Game) -> (v: Vec<Cell>)
    requires
        game@.wf(),
    ensures
        v@ == snapshot_view(game@),
{
    let segments = game.segment_positions();
    let walls = game.wall_positions();
    let mut v: Vec<Cell> = Vec::new();
    let mut i: usize = 0;
    while i < segments.len()
        invariant
            i <= segments.len(),
            segments@ == game@.segments,
            v@ == segment_cells(game@.segments).take(i as int),
        decreases segments.len() - i,
    {
        let kind = if i == 0 {
            CellKind::Head
        } else {
            CellKind::Body
        };
        v.push(Cell { pos: segments[i], kind });
        i += 1;
        proof {
            assert(v@ =~= segment_cells(game@.segments).take(i as int));
        }
    }
    proof {
        assert(v@ =~= segment_cells(game@.segments));
    }
    if let Some(p) = game.food() {
        v.push(Cell { pos: p, kind: CellKind::Food });
    }
    proof {
        assert(v@ =~= segment_cells(game@.segments) + food_cells(game@.food));
    }
    let ghost before_walls = v@;
    let mut j: usize = 0;
    while j < walls.len()
        invariant
            j <= walls.len(),
            walls@ == game@.walls,
            v@ == before_walls + wall_cells(game@.walls).take(j as int),
        decreases walls.len() - j,
    {
        v.push(Cell { pos: walls[j], kind: CellKind::Wall });
        j += 1;
        proof {
            assert(v@ =~= before_walls + wall_cells(game@.walls).take(j as int));
        }
    }
    proof {
        assert(v@ =~= snapshot_view(game@));
    }
    v
}

} // verus!
