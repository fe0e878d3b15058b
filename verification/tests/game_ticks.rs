use snake_core::game::{ConfigError, Game, GameConfig};
use snake_core::grid::{Direction, Position};

fn pos(x: i32, y: i32) -> Position {
    Position { x, y }
}

fn game20() -> Game {
    let cfg = GameConfig {
        width: 20,
        height: 20,
        start: pos(10, 10),
        start_heading: Direction::Up,
    };
    match Game::new(cfg) {
        Ok(g) => g,
        Err(_) => panic!("a valid configuration was rejected"),
    }
}

#[test]
fn construction_rejects_an_arena_without_interior() {
    let cfg = GameConfig {
        width: 2,
        height: 20,
        start: pos(1, 2),
        start_heading: Direction::Up,
    };
    assert_eq!(Game::new(cfg).err(), Some(ConfigError::ArenaTooSmall));
}

#[test]
fn construction_rejects_a_start_outside_the_interior() {
    let cfg = GameConfig {
        width: 20,
        height: 20,
        start: pos(0, 10),
        start_heading: Direction::Up,
    };
    assert_eq!(Game::new(cfg).err(), Some(ConfigError::StartOutsideInterior));
    let low = GameConfig {
        width: 20,
        height: 20,
        start: pos(10, 1),
        start_heading: Direction::Up,
    };
    assert_eq!(Game::new(low).err(), Some(ConfigError::StartOutsideInterior));
}

#[test]
fn a_new_game_stands_at_the_canonical_start() {
    let g = game20();
    assert_eq!(g.segment_positions(), vec![pos(10, 10), pos(10, 9)]);
    assert_eq!(g.heading(), Direction::Up);
    assert_eq!(g.food(), None);
    assert_eq!(g.last_tail(), None);
    assert!(!g.growth_pending());
}

#[test]
fn three_ticks_walk_the_head_up_and_the_body_follows() {
    let mut g = game20();
    let expected_heads = [pos(10, 11), pos(10, 12), pos(10, 13)];
    for expected in expected_heads {
        let before = g.segment_positions();
        let rep = g.on_fast_tick(None);
        assert!(!rep.game_over);
        let after = g.segment_positions();
        assert_eq!(after[0], expected);
        assert_eq!(after[1], before[0]);
        assert_eq!(after.len(), 2);
    }
}

#[test]
fn reverse_request_is_ignored_and_others_take_effect() {
    let mut g = game20();
    let rep = g.on_fast_tick(Some(Direction::Down));
    assert!(!rep.game_over);
    assert_eq!(g.heading(), Direction::Up);
    assert_eq!(g.segment_positions()[0], pos(10, 11));
    let rep = g.on_fast_tick(Some(Direction::Left));
    assert!(!rep.game_over);
    assert_eq!(g.heading(), Direction::Left);
    assert_eq!(g.segment_positions()[0], pos(9, 11));
    let rep = g.on_fast_tick(Some(Direction::Right));
    assert!(!rep.game_over);
    assert_eq!(g.heading(), Direction::Left);
    assert_eq!(g.segment_positions()[0], pos(8, 11));
}

#[test]
fn eating_clears_the_food_and_grows_on_the_next_tick() {
    let mut g = game20();
    g.place_food_from(9, 12);
    assert_eq!(g.food(), Some(pos(10, 13)));
    let rep = g.on_fast_tick(None);
    assert!(!rep.ate);
    let rep = g.on_fast_tick(None);
    assert!(!rep.ate);
    let rep = g.on_fast_tick(None);
    assert!(rep.ate);
    assert!(!rep.grew);
    assert_eq!(g.food(), None);
    assert!(g.growth_pending());
    assert_eq!(g.segment_positions(), vec![pos(10, 13), pos(10, 12)]);
    let rep = g.on_fast_tick(None);
    assert!(rep.grew);
    assert!(!g.growth_pending());
    assert_eq!(
        g.segment_positions(),
        vec![pos(10, 14), pos(10, 13), pos(10, 12)]
    );
}

#[test]
fn the_segment_count_only_grows_by_one_or_resets_to_two() {
    let mut g = game20();
    g.place_food_from(9, 12);
    let mut count = g.segment_count();
    assert_eq!(count, 2);
    for _ in 0..40 {
        let rep = g.on_fast_tick(None);
        let next = g.segment_count();
        if rep.game_over {
            assert_eq!(next, 2);
        } else if rep.grew {
            assert_eq!(next, count + 1);
        } else {
            assert_eq!(next, count);
        }
        count = next;
    }
}

#[test]
fn the_head_reaching_the_wall_ring_resets_the_game() {
    let cfg = GameConfig {
        width: 5,
        height: 5,
        start: pos(2, 2),
        start_heading: Direction::Up,
    };
    let mut g = match Game::new(cfg) {
        Ok(g) => g,
        Err(_) => panic!("a valid configuration was rejected"),
    };
    let rep = g.on_fast_tick(Some(Direction::Left));
    assert!(!rep.game_over);
    assert_eq!(g.segment_positions()[0], pos(1, 2));
    let rep = g.on_fast_tick(None);
    assert!(rep.hit_wall);
    assert!(!rep.hit_self);
    assert!(rep.game_over);
    assert_eq!(g.segment_positions(), vec![pos(2, 2), pos(2, 1)]);
    assert_eq!(g.heading(), Direction::Up);
    assert_eq!(g.food(), None);

    // The y equivalent: two steps up reach y = height - 1.
    let rep = g.on_fast_tick(None);
    assert!(!rep.game_over);
    assert_eq!(g.segment_positions()[0], pos(2, 3));
    let rep = g.on_fast_tick(None);
    assert!(rep.hit_wall && rep.game_over);
    assert_eq!(g.segment_positions(), vec![pos(2, 2), pos(2, 1)]);

    // And the far edges: x = width - 1, then y = 0.
    let rep = g.on_fast_tick(Some(Direction::Right));
    assert!(!rep.game_over);
    let rep = g.on_fast_tick(None);
    assert!(rep.hit_wall && rep.game_over);
    let rep = g.on_fast_tick(Some(Direction::Right));
    assert!(!rep.game_over);
    let rep = g.on_fast_tick(Some(Direction::Down));
    assert!(!rep.game_over);
    assert_eq!(g.segment_positions()[0], pos(3, 1));
    let rep = g.on_fast_tick(None);
    assert!(rep.hit_wall && rep.game_over);
    assert_eq!(g.segment_positions(), vec![pos(2, 2), pos(2, 1)]);
}

#[test]
fn walking_into_the_body_resets_the_game() {
    let mut g = game20();
    g.place_food_from(9, 10);
    assert_eq!(g.food(), Some(pos(10, 11)));
    let rep = g.on_fast_tick(None);
    assert!(rep.ate);
    g.place_food_from(9, 11);
    assert_eq!(g.food(), Some(pos(10, 12)));
    let rep = g.on_fast_tick(None);
    assert!(rep.ate && rep.grew);
    let rep = g.on_fast_tick(None);
    assert!(!rep.ate && rep.grew);
    assert_eq!(
        g.segment_positions(),
        vec![pos(10, 13), pos(10, 12), pos(10, 11), pos(10, 10)]
    );
    assert!(!g.growth_pending());
    let rep = g.on_fast_tick(Some(Direction::Right));
    assert!(!rep.game_over);
    let rep = g.on_fast_tick(Some(Direction::Down));
    assert!(!rep.game_over);
    assert_eq!(
        g.segment_positions(),
        vec![pos(11, 12), pos(11, 13), pos(10, 13), pos(10, 12)]
    );
    let rep = g.on_fast_tick(Some(Direction::Left));
    assert!(rep.hit_self);
    assert!(rep.game_over);
    assert_eq!(g.segment_positions(), vec![pos(10, 10), pos(10, 9)]);
    assert_eq!(g.heading(), Direction::Up);
    assert_eq!(g.food(), None);
    assert!(!g.growth_pending());
}
