//! The laws of the simulation, each stated over the model transition
//! `tick_view` and proved once for every well-formed game and every input.

use vstd::prelude::*;

use crate::game::{
    tick_eats, tick_game_over, tick_hits_self, tick_hits_wall, tick_new_head, tick_view, GameView,
};
use crate::grid::{Direction, Position};
use crate::snake::heading_after;

verus! {

/// The segment count never decreases except by a reset: across any fast
/// tick it grows by exactly one when a growth signal was outstanding,
/// stays the same when none was, and returns to the initial two on a game
/// over.
pub proof fn lemma_segment_count(g: GameView, input: Option<Direction>)
    requires
        g.wf(),
    ensures
        tick_game_over(g, input) ==> tick_view(g, input).segments.len() == 2,
        !tick_game_over(g, input) && g.growth_pending ==> tick_view(g, input).segments.len()
            == g.segments.len() + 1,
        !tick_game_over(g, input) && !g.growth_pending ==> tick_view(g, input).segments.len()
            == g.segments.len(),
        tick_view(g, input).segments.len() >= g.segments.len() || tick_view(
            g,
            input,
        ).segments.len() == 2,
{
}

/// The simultaneous-shift invariant: across a tick that is not a game
/// over, every segment that is neither the head nor a freshly grown tail
/// takes exactly the position its predecessor held before the tick, and
/// the head takes the stepped cell.
pub proof fn lemma_simultaneous_shift(g: GameView, input: Option<Direction>)
    requires
        g.wf(),
        !tick_game_over(g, input),
    ensures
        tick_view(g, input).segments[0] == tick_new_head(g, input),
        forall|i: int|
            1 <= i < g.segments.len() ==> tick_view(g, input).segments[i] == g.segments[i - 1],
{
    let t = tick_view(g, input);
    let shifted = seq![tick_new_head(g, input)] + g.segments.drop_last();
    assert forall|i: int| 1 <= i < g.segments.len() implies t.segments[i] == g.segments[i - 1] by {
        assert(shifted[i] == g.segments.drop_last()[i - 1]);
    }
}

/// Heading intake rejects exactly the direct reverse: requesting the
/// opposite of the current heading leaves it unchanged, and any other
/// request takes effect.
pub proof fn lemma_heading_guard(current: Direction, requested: Direction)
    ensures
        requested == current.opposite_spec() ==> heading_after(current, requested) == current,
        requested != current.opposite_spec() ==> heading_after(current, requested) == requested,
{
}

/// A snake of length at least three whose head advances into a cell that
/// one of its farther body segments occupies ends the tick in a game
/// over, and the one reset that follows leaves the canonical start state.
pub proof fn lemma_self_collision(g: GameView, input: Option<Direction>, i: int)
    requires
        g.wf(),
        g.segments.len() >= 3,
        2 <= i < g.segments.len(),
        tick_new_head(g, input) == g.segments[i],
    ensures
        tick_hits_self(g, input),
        tick_game_over(g, input),
        tick_view(g, input) == g.reset_state(),
{
    assert(g.segments.contains(tick_new_head(g, input))) by {
        assert(g.segments[i] == tick_new_head(g, input));
    }
}

/// In a walled arena the playable interior is `[1, width - 2]` by
/// `[1, height - 2]`: a head moving onto the border ring — x of 0 or
/// width - 1, or y of 0 or height - 1 — ends the tick in a game over.
pub proof fn lemma_boundary_collision(g: GameView, input: Option<Direction>)
    requires
        g.wf(),
        tick_new_head(g, input).x == 0 || tick_new_head(g, input).x == g.config.width - 1
            || tick_new_head(g, input).y == 0 || tick_new_head(g, input).y == g.config.height - 1,
    ensures
        tick_hits_wall(g, input),
        tick_game_over(g, input),
        tick_view(g, input) == g.reset_state(),
{
}

/// Food consumption: a tick whose head lands on the food, without a
/// collision, removes the food and leaves a growth signal; the next tick
/// that is not a game over then has exactly one segment more, the new one
/// standing at that next tick's pre-shift tail position.
pub proof fn lemma_food_consumption(g: GameView, input: Option<Direction>, next_input: Option<
    Direction,
>)
    requires
        g.wf(),
        tick_eats(g, input),
        !tick_game_over(g, input),
    ensures
        (tick_view(g, input).food is None),
        tick_view(g, input).growth_pending,
        !tick_game_over(tick_view(g, input), next_input) ==> {
            let g1 = tick_view(g, input);
            let g2 = tick_view(g1, next_input);
            &&& g2.segments.len() == g1.segments.len() + 1
            &&& g2.segments.last() == g1.segments.last()
            &&& g2.last_tail == Some(g1.segments.last())
        },
{
    let g1 = tick_view(g, input);
    if !tick_game_over(g1, next_input) {
        let shifted = seq![tick_new_head(g1, next_input)] + g1.segments.drop_last();
        assert(tick_view(g1, next_input).segments == shifted.push(g1.segments.last()));
    }
}

/// The reset property: a tick that ends in a game over leaves exactly two
/// segments — the configured start and the cell below it — the configured
/// heading, no food, no outstanding signals, and the static wall set
/// untouched.
pub proof fn lemma_reset(g: GameView, input: Option<Direction>)
    requires
        g.wf(),
        tick_game_over(g, input),
    ensures
        tick_view(g, input) == g.reset_state(),
        tick_view(g, input).segments =~= seq![
            g.config.start,
            Position { x: g.config.start.x, y: (g.config.start.y - 1) as i32 },
        ],
        tick_view(g, input).segments.len() == 2,
        tick_view(g, input).heading == g.config.start_heading,
        (tick_view(g, input).food is None),
        tick_view(g, input).growth_pending == false,
        tick_view(g, input).walls == g.walls,
        tick_view(g, input).wf(),
{
    crate::game::lemma_tick_preserves_wf(g, input);
}

} // verus!
