//! The game-state controller: owns the snake, the food slot and the wall
//! set, advances the game one tick at a time, and resets it on a game over.

use vstd::prelude::*;

use crate::grid::{
    contains_position, in_interior, is_in_interior, on_border, stepped, Direction, Position,
};
use crate::snake::{heading_after, Snake};

verus! {

broadcast use vstd::seq_lib::lemma_seq_contains_after_push;

/// Arena dimensions and the canonical starting position and heading,
/// supplied once at construction.
#[derive(Clone, Copy, PartialEq, Eq, Structural, Debug)]
pub struct GameConfig {
    /// Arena width in grid cells, border wall included.
    pub width: i32,
    /// Arena height in grid cells, border wall included.
    pub height: i32,
    /// Where the head starts, and where it returns after a game over.
    pub start: Position,
    /// The heading the snake starts with, and returns to after a game over.
    pub start_heading: Direction,
}

/// The cell directly below the configured start: where the initial body
/// segment is placed, one cell behind a head that starts out heading up.
pub open spec fn start_body(config: GameConfig) -> Position {
    Position { x: config.start.x, y: (config.start.y - 1) as i32 }
}

impl GameConfig {
    /// A configuration is valid when the walled interior is non-empty and
    /// both starting segments (the head and the body cell below it) lie
    /// strictly inside it.
    pub open spec fn valid_spec(self) -> bool {
        &&& 3 <= self.width
        &&& 3 <= self.height
        &&& 1 <= self.start.x < self.width - 1
        &&& 2 <= self.start.y < self.height - 1
    }

    /// Whether this configuration is valid: a non-empty walled interior
    /// that contains both starting segments.
    #[verifier::when_used_as_spec(valid_spec)]
    pub fn is_valid(self) -> (r: bool)
        ensures
            r == self.valid_spec(),
    {
        3 <= self.width && 3 <= self.height && 1 <= self.start.x && self.start.x < self.width - 1
            && 2 <= self.start.y && self.start.y < self.height - 1
    }

    /// The reference arena: 40 by 40 cells with the snake starting at the
    /// centre, heading up.
    pub fn standard() -> (c: GameConfig)
        ensures
            c == (GameConfig {
                width: 40,
                height: 40,
                start: Position { x: 20, y: 20 },
                start_heading: Direction::Up,
            }),
            c.valid_spec(),
    {
        GameConfig {
            width: 40,
            height: 40,
            start: Position { x: 20, y: 20 },
            start_heading: Direction::Up,
        }
    }
}

/// Why a configuration was rejected at construction.
#[derive(Clone, Copy, PartialEq, Eq, Structural, Debug)]
pub enum ConfigError {
    /// The arena is smaller than 3 cells in one dimension, leaving no
    /// playable interior inside the walls.
    ArenaTooSmall,
    /// The starting head or the body cell below it falls outside the
    /// walled interior.
    StartOutsideInterior,
}

/// The mathematical model of a whole game: configuration, wall cells, the
/// snake's segments and heading, the food slot, the cell the tail vacated
/// on the last advance, and whether a growth signal is outstanding.
#[verifier::ext_equal]
pub ghost struct GameView {
    pub config: GameConfig,
    pub walls: Seq<Position>,
    pub segments: Seq<Position>,
    pub heading: Direction,
    pub food: Option<Position>,
    pub last_tail: Option<Position>,
    pub growth_pending: bool,
}

impl GameView {
    /// The state a game over resets to: the canonical two-segment snake at
    /// the configured start, the configured heading, no food and no
    /// outstanding signals. The configuration and the static wall set are
    /// kept.
    pub open spec fn reset_state(self) -> GameView {
        GameView {
            config: self.config,
            walls: self.walls,
            segments: seq![self.config.start, start_body(self.config)],
            heading: self.config.start_heading,
            food: None,
            last_tail: None,
            growth_pending: false,
        }
    }

    /// Well-formedness: the configuration is valid, the snake has at least
    /// its two starting segments and lies inside the walled interior, as
    /// do the food and the recorded tail cell when present, and the wall
    /// set is exactly the arena's border ring, each brick once.
    pub open spec fn wf(self) -> bool {
        &&& self.config.valid_spec()
        &&& self.segments.len() >= 2
        &&& forall|i: int|
            0 <= i < self.segments.len() ==> in_interior(
                #[trigger] self.segments[i],
                self.config.width,
                self.config.height,
            )
        &&& (self.food matches Some(p) ==> in_interior(p, self.config.width, self.config.height))
        &&& (self.last_tail matches Some(p) ==> in_interior(
            p,
            self.config.width,
            self.config.height,
        ))
        &&& self.walls.no_duplicates()
        &&& forall|p: Position|
            self.walls.contains(p) <==> on_border(p, self.config.width, self.config.height)
    }
}

/// The heading the head takes this tick: the requested direction when one
/// is given and it is not the direct reverse of the current heading, else
/// the current heading.
pub open spec fn tick_heading(g: GameView, input: Option<Direction>) -> Direction {
    match input {
        Some(d) => heading_after(g.heading, d),
        None => g.heading,
    }
}

/// The cell the head moves into this tick.
pub open spec fn tick_new_head(g: GameView, input: Option<Direction>) -> Position {
    stepped(g.segments[0], tick_heading(g, input))
}

/// Whether the head leaves the walled interior this tick.
pub open spec fn tick_hits_wall(g: GameView, input: Option<Direction>) -> bool {
    !in_interior(tick_new_head(g, input), g.config.width, g.config.height)
}

/// Whether the head moves into a cell the body occupied before this
/// tick's shift (the pre-shift positions, deliberately: the question is
/// whether the head enters a currently occupied cell).
pub open spec fn tick_hits_self(g: GameView, input: Option<Direction>) -> bool {
    g.segments.contains(tick_new_head(g, input))
}

/// Whether this tick ends in a game over: a wall hit or a self-collision,
/// either alone sufficient.
pub open spec fn tick_game_over(g: GameView, input: Option<Direction>) -> bool {
    tick_hits_wall(g, input) || tick_hits_self(g, input)
}

/// Whether the head lands on the active food this tick.
pub open spec fn tick_eats(g: GameView, input: Option<Direction>) -> bool {
    g.food == Some(tick_new_head(g, input))
}

/// One fast tick of the whole game, as a function on models: heading
/// intake, the simultaneous shift, an outstanding growth signal applied at
/// the cell the tail just vacated, collision checks, food consumption, and
/// on a game over the unconditional reset.
pub open spec fn tick_view(g: GameView, input: Option<Direction>) -> GameView {
    if tick_game_over(g, input) {
        g.reset_state()
    } else {
        let shifted = seq![tick_new_head(g, input)] + g.segments.drop_last();
        GameView {
            config: g.config,
            walls: g.walls,
            segments: if g.growth_pending {
                shifted.push(g.segments.last())
            } else {
                shifted
            },
            heading: tick_heading(g, input),
            food: if tick_eats(g, input) {
                None
            } else {
                g.food
            },
            last_tail: Some(g.segments.last()),
            growth_pending: tick_eats(g, input),
        }
    }
}

/// What one fast tick reported: the one-shot signals the tick raised and
/// consumed, surfaced for the host.
#[derive(Clone, Copy, PartialEq, Eq, Structural, Debug)]
pub struct TickReport {
    /// The head left the walled interior.
    pub hit_wall: bool,
    /// The head moved into a cell the body occupied.
    pub hit_self: bool,
    /// Either collision fired; the game was reset before returning.
    pub game_over: bool,
    /// The head landed on the food; the food was removed.
    pub ate: bool,
    /// An earlier growth signal appended one segment this tick.
    pub grew: bool,
}

/// Builds the border wall: every cell of the outermost ring of a `width`
/// by `height` arena, each exactly once.
fn build_walls(width: i32, height: i32) -> (v: Vec<Position>)
    requires
        3 <= width,
        3 <= height,
    ensures
        v@.no_duplicates(),
        forall|p: Position| v@.contains(p) <==> on_border(p, width, height),
{
    let mut v: Vec<Position> = Vec::new();
    let mut x: i32 = 0;
    while x < width
        invariant
            3 <= width,
            3 <= height,
            0 <= x <= width,
            v@.no_duplicates(),
            forall|p: Position|
                v@.contains(p) <==> (0 <= p.x < x && (p.y == 0 || p.y == height - 1)),
        decreases width - x,
    {
        let low = Position { x, y: 0 };
        let high = Position { x, y: height - 1 };
        let ghost pre = v@;
        v.push(low);
        v.push(high);
        proof {
            assert(!pre.contains(low));
            assert(!pre.contains(high));
            assert(v@ == pre.push(low).push(high));
            assert forall|i: int, j: int|
                0 <= i < v@.len() && 0 <= j < v@.len() && i != j implies v@[i] != v@[j] by {
                if i < pre.len() {
                    assert(pre.contains(pre[i])) by {
                        assert(pre[i] == pre[i]);
                    }
                }
                if j < pre.len() {
                    assert(pre.contains(pre[j])) by {
                        assert(pre[j] == pre[j]);
                    }
                }
            }
        }
        x += 1;
    }
    let mut y: i32 = 1;
    while y < height - 1
        invariant
            3 <= width,
            3 <= height,
            1 <= y <= height - 1,
            v@.no_duplicates(),
            forall|p: Position|
                v@.contains(p) <==> ((0 <= p.x < width && (p.y == 0 || p.y == height - 1)) || ((
            p.x == 0 || p.x == width - 1) && 1 <= p.y < y)),
        decreases height - 1 - y,
    {
        let left = Position { x: 0, y };
        let right = Position { x: width - 1, y };
        let ghost pre = v@;
        v.push(left);
        v.push(right);
        proof {
            assert(!pre.contains(left));
            assert(!pre.contains(right));
            assert(v@ == pre.push(left).push(right));
            assert forall|i: int, j: int|
                0 <= i < v@.len() && 0 <= j < v@.len() && i != j implies v@[i] != v@[j] by {
                if i < pre.len() {
                    assert(pre.contains(pre[i])) by {
                        assert(pre[i] == pre[i]);
                    }
                }
                if j < pre.len() {
                    assert(pre.contains(pre[j])) by {
                        assert(pre[j] == pre[j]);
                    }
                }
            }
        }
        y += 1;
    }
    v
}

/// The game-state controller: exclusive owner of the snake, the food slot,
/// the static wall set and the transient tail and growth records.
pub struct Game {
    config: GameConfig,
    walls: Vec<Position>,
    snake: Snake,
    food: Option<Position>,
    last_tail: Option<Position>,
    growth_pending: bool,
}

impl View for Game {
    type V = GameView;

    closed spec fn view(&self) -> GameView {
        GameView {
            config: self.config,
            walls: self.walls@,
            segments: self.snake@.segments,
            heading: self.snake@.heading,
            food: self.food,
            last_tail: self.last_tail,
            growth_pending: self.growth_pending,
        }
    }
}

impl Game {
    /// Builds a fresh game for `config`: the border wall, the canonical
    /// two-segment snake at the start, no food and no outstanding signals.
    /// An invalid configuration is rejected here, never discovered
    /// mid-tick: an arena without a playable interior gives
    /// `ArenaTooSmall`, a starting snake outside the interior gives
    /// `StartOutsideInterior`.
    pub fn new(config: GameConfig) -> (r: Result<Game, ConfigError>)
        ensures
            r is Ok <==> config.valid_spec(),
            r matches Ok(g) ==> {
                &&& g@.wf()
                &&& g@.config == config
                &&& g@ == g@.reset_state()
            },
            r matches Err(e) ==> e == (if config.width < 3 || config.height < 3 {
                ConfigError::ArenaTooSmall
            } else {
                ConfigError::StartOutsideInterior
            }),
    {
        if config.width < 3 || config.height < 3 {
            return Err(ConfigError::ArenaTooSmall);
        }
        if !(1 <= config.start.x && config.start.x < config.width - 1 && 2 <= config.start.y
            && config.start.y < config.height - 1) {
            return Err(ConfigError::StartOutsideInterior);
        }
        let walls = build_walls(config.width, config.height);
        let body = Position { x: config.start.x, y: config.start.y - 1 };
        let snake = Snake::new(config.start, body, config.start_heading);
        let game = Game { config, walls, snake, food: None, last_tail: None, growth_pending: false };
        proof {
            assert(game@ =~= game@.reset_state());
        }
        Ok(game)
    }

    /// Well-formedness of the underlying model.
    pub open spec fn wf(&self) -> bool {
        self@.wf()
    }

    /// The configuration the game was built with.
    pub fn config(&self) -> (c: GameConfig)
        ensures
            c == self@.config,
    {
        self.config
    }

    /// Tears the game down to its starting state: the current body and any
    /// active food are discarded, and a fresh two-segment snake stands at
    /// the configured start with the configured heading. The wall set is
    /// static and stays.
    pub fn reset(&mut self)
        requires
            old(self)@.config.valid_spec(),
        ensures
            final(self)@ == old(self)@.reset_state(),
    {
        let body = Position { x: self.config.start.x, y: self.config.start.y - 1 };
        self.snake = Snake::new(self.config.start, body, self.config.start_heading);
        self.food = None;
        self.last_tail = None;
        self.growth_pending = false;
        proof {
            assert(self@ =~= old(self)@.reset_state());
        }
    }

    /// One fast tick: heading intake, the simultaneous advance, the
    /// application of an outstanding growth signal at the cell the tail
    /// just vacated, the wall, self-collision and food checks, and on a
    /// game over the immediate reset. The whole transition equals the
    /// model function `tick_view`, and the report surfaces the one-shot
    /// signals this tick raised.
    pub fn on_fast_tick(&mut self, input: Option<Direction>) -> (r: TickReport)
        requires
            old(self)@.wf(),
        ensures
            final(self)@.wf(),
            final(self)@ == tick_view(old(self)@, input),
            r.hit_wall == tick_hits_wall(old(self)@, input),
            r.hit_self == tick_hits_self(old(self)@, input),
            r.game_over == tick_game_over(old(self)@, input),
            r.ate == tick_eats(old(self)@, input),
            r.grew == (old(self)@.growth_pending && !tick_game_over(old(self)@, input)),
    {
        if let Some(d) = input {
            self.snake.set_heading(d);
        }
        let prev = self.snake.positions();
        let last_tail = self.snake.advance();
        let head = self.snake.head();
        let hit_wall = !is_in_interior(head, self.config.width, self.config.height);
        let hit_self = contains_position(&prev, head);
        let game_over = hit_wall || hit_self;
        let ate = match self.food {
            Some(f) => f == head,
            None => false,
        };
        let mut grew = false;
        if game_over {
            self.reset();
        } else {
            if self.growth_pending {
                self.snake.grow_at(last_tail);
                self.growth_pending = false;
                grew = true;
            }
            if ate {
                self.food = None;
                self.growth_pending = true;
            }
            self.last_tail = Some(last_tail);
        }
        proof {
            lemma_tick_preserves_wf(old(self)@, input);
            assert(self@ =~= tick_view(old(self)@, input));
        }
        TickReport { hit_wall, hit_self, game_over, ate, grew }
    }
}

/// The interior cell that a pair of raw random draws selects: each
/// coordinate is one plus the draw reduced modulo the interior's extent,
/// so the cell always lies strictly inside the walls.
pub open spec fn interior_cell(rx: u32, ry: u32, width: i32, height: i32) -> Position {
    Position {
        x: (1 + (rx as int) % (width - 2)) as i32,
        y: (1 + (ry as int) % (height - 2)) as i32,
    }
}

impl Game {
    /// Places food deterministically from two raw draws: when the food
    /// slot is empty it is filled with the interior cell the draws select;
    /// an outstanding food item is left where it is, so at most one is
    /// ever active. Nothing else changes.
    pub fn place_food_from(&mut self, rx: u32, ry: u32)
        requires
            old(self)@.wf(),
        ensures
            final(self)@.wf(),
            final(self)@ == (GameView {
                food: final(self)@.food,
                ..old(self)@
            }),
            old(self)@.food is Some ==> final(self)@.food == old(self)@.food,
            old(self)@.food is None ==> final(self)@.food == Some(
                interior_cell(rx, ry, old(self)@.config.width, old(self)@.config.height),
            ),
    {
        if self.food.is_none() {
            let mx: u32 = (self.config.width - 2) as u32;
            let my: u32 = (self.config.height - 2) as u32;
            let fx: i32 = 1 + (rx % mx) as i32;
            let fy: i32 = 1 + (ry % my) as i32;
            self.food = Some(Position { x: fx, y: fy });
        }
    }

    /// The head's position.
    pub fn head(&self) -> (p: Position)
        requires
            self@.wf(),
        ensures
            p == self@.segments[0],
    {
        self.snake.head()
    }

    /// How many segments the snake has, the head included.
    pub fn segment_count(&self) -> (n: usize)
        ensures
            n == self@.segments.len(),
    {
        self.snake.len()
    }

    /// A copy of all segment positions, head first.
    pub fn segment_positions(&self) -> (v: Vec<Position>)
        ensures
            v@ == self@.segments,
    {
        self.snake.positions()
    }

    /// The heading the head will take on the next tick.
    pub fn heading(&self) -> (d: Direction)
        ensures
            d == self@.heading,
    {
        self.snake.heading()
    }

    /// The active food cell, if one is outstanding.
    pub fn food(&self) -> (f: Option<Position>)
        ensures
            f == self@.food,
    {
        self.food
    }

    /// The cell the tail vacated on the last advance, if any tick has run
    /// since the last reset.
    pub fn last_tail(&self) -> (t: Option<Position>)
        ensures
            t == self@.last_tail,
    {
        self.last_tail
    }

    /// Whether a growth signal is outstanding: the next surviving tick
    /// will append one segment.
    pub fn growth_pending(&self) -> (b: bool)
        ensures
            b == self@.growth_pending,
    {
        self.growth_pending
    }

    /// A copy of the static wall set: every border cell, each once.
    pub fn wall_positions(&self) -> (v: Vec<Position>)
        ensures
            v@ == self@.walls,
    {
        let mut v: Vec<Position> = Vec::new();
        let mut i: usize = 0;
        while i < self.walls.len()
            invariant
                i <= self.walls.len(),
                v@ == self@.walls.take(i as int),
            decreases self.walls.len() - i,
        {
            v.push(self.walls[i]);
            i += 1;
            proof {
                assert(v@ =~= self@.walls.take(i as int));
            }
        }
        proof {
            assert(v@ =~= self@.walls);
        }
        v
    }

    /// One slow tick: when no food is outstanding, spawns one at a random
    /// cell of the walled interior; when one is outstanding, leaves it.
    /// Nothing but the food slot changes, whatever the draws were.
    pub fn on_slow_tick(&mut self)
        requires
            old(self)@.wf(),
        ensures
            final(self)@.wf(),
            final(self)@ == (GameView {
                food: final(self)@.food,
                ..old(self)@
            }),
            old(self)@.food is Some ==> final(self)@.food == old(self)@.food,
            old(self)@.food is None ==> (final(self)@.food matches Some(p) && in_interior(
                p,
                old(self)@.config.width,
                old(self)@.config.height,
            )),
    {
        let rx = crate::rng::random_u32();
        let ry = crate::rng::random_u32();
        self.place_food_from(rx, ry);
    }
}

/// The direction a per-tick input poll requests. Ties between
/// simultaneously pressed directions resolve by the checked priority
/// order Up, Right, Down, Left — first match wins; no press at all
/// requests nothing, which retains the prior heading.
pub open spec fn requested_direction_spec(up: bool, right: bool, down: bool, left: bool) -> Option<
    Direction,
> {
    if up {
        Some(Direction::Up)
    } else if right {
        Some(Direction::Right)
    } else if down {
        Some(Direction::Down)
    } else if left {
        Some(Direction::Left)
    } else {
        None
    }
}

/// Resolves one tick's pressed-direction flags to the requested heading,
/// by the checked priority order Up, Right, Down, Left.
#[verifier::when_used_as_spec(requested_direction_spec)]
pub fn requested_direction(up: bool, right: bool, down: bool, left: bool) -> (r: Option<Direction>)
    ensures
        r == requested_direction_spec(up, right, down, left),
{
    if up {
        Some(Direction::Up)
    } else if right {
        Some(Direction::Right)
    } else if down {
        Some(Direction::Down)
    } else if left {
        Some(Direction::Left)
    } else {
        None
    }
}

/// A well-formed game stays well-formed across any fast tick: the snake
/// never leaves the walled interior at rest, the food and tail records
/// stay inside it, and the wall set is untouched.
pub proof fn lemma_tick_preserves_wf(g: GameView, input: Option<Direction>)
    requires
        g.wf(),
    ensures
        tick_view(g, input).wf(),
{
    let t = tick_view(g, input);
    if tick_game_over(g, input) {
        assert(t.segments.len() == 2);
        assert(in_interior(t.segments[0], g.config.width, g.config.height));
        assert(in_interior(t.segments[1], g.config.width, g.config.height));
    } else {
        let shifted = seq![tick_new_head(g, input)] + g.segments.drop_last();
        assert forall|i: int| 0 <= i < t.segments.len() implies in_interior(
            #[trigger] t.segments[i],
            t.config.width,
            t.config.height,
        ) by {
            if i == 0 {
                assert(t.segments[0] == tick_new_head(g, input));
            } else if i < shifted.len() {
                assert(t.segments[i] == g.segments[i - 1]);
            } else {
                assert(t.segments[i] == g.segments.last());
            }
        }
    }
}

} // verus!
