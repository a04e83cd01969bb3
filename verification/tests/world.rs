use std::collections::VecDeque;

use snake_core::clock::TickRate;
use snake_core::engine::{Grow, Snake};
use snake_core::field::Field;
use snake_core::game::{Food, FrameInput, Game, Phase};
use snake_core::intent::DirectionState;
use snake_core::pos::{Dir, Pos};
use snake_core::render::{Cell, CellKind};

fn pos(x: i32, y: i32) -> Pos {
    Pos { x, y }
}

fn quiet() -> FrameInput {
    FrameInput { start: false, up: false, down: false, left: false, right: false }
}

fn start() -> FrameInput {
    FrameInput { start: true, up: false, down: false, left: false, right: false }
}

/// A running game on a 20 by 20 centered field, heading up, with the food
/// pinned well away from the path so frames stay deterministic.
fn playing(body: Vec<Pos>, score: usize, grows: Vec<Grow>, food: Pos) -> Game {
    let head = body[0];
    let deque: VecDeque<Pos> = VecDeque::from(body);
    Game {
        field: Field::centered(20, 20),
        phase: Phase::Playing,
        snake: Some(Snake {
            body: deque,
            dirs: DirectionState { curr_dir: Dir { dx: 0, dy: 1 }, next_dir: Dir { dx: 0, dy: 1 } },
            grid_pos: head,
        }),
        food: Some(Food { pos: food }),
        grows,
        score,
        tick: TickRate { interval_ms: 150, elapsed_ms: 0 },
    }
}

#[test]
fn begin_watches_only_for_start() {
    let mut g = Game::new(Field::centered(20, 20));
    let out = g.update(
        FrameInput { start: false, up: true, down: false, left: true, right: false },
        1000,
    );
    assert_eq!(g.phase, Phase::Begin);
    assert!(g.snake.is_none());
    assert!(g.food.is_none());
    assert_eq!(g.tick.elapsed_ms, 0);
    assert!(!out.ready && !out.nom && !out.ouch);
}

#[test]
fn start_spawns_fresh_snake() {
    let mut g = Game::new(Field::centered(20, 20));
    let out = g.update(start(), 0);
    assert!(out.ready);
    assert_eq!(g.phase, Phase::Playing);
    let s = g.snake.as_ref().unwrap();
    assert_eq!(s.body, VecDeque::from(vec![pos(0, 0)]));
    assert_eq!(s.grid_pos, pos(0, 0));
    assert_eq!(s.dirs.curr_dir, Dir { dx: 0, dy: 1 });
    assert_eq!(g.score, 0);
    assert_eq!(g.tick.interval_ms, 150);
    assert!(g.food.is_none());
}

#[test]
fn three_advances_keep_length_one() {
    let mut g = playing(vec![pos(0, 0)], 0, vec![], pos(5, 5));
    for _ in 0..3 {
        let out = g.update(quiet(), 150);
        assert!(!out.nom && !out.ouch);
    }
    let s = g.snake.as_ref().unwrap();
    assert_eq!(s.grid_pos, pos(0, 3));
    assert_eq!(s.body, VecDeque::from(vec![pos(0, 3)]));
    assert_eq!(g.score, 0);
    assert_eq!(g.food, Some(Food { pos: pos(5, 5) }));
}

#[test]
fn no_advance_before_interval() {
    let mut g = playing(vec![pos(0, 0)], 0, vec![], pos(5, 5));
    let out = g.update(quiet(), 149);
    assert!(!out.nom && !out.ouch);
    let s = g.snake.as_ref().unwrap();
    assert_eq!(s.grid_pos, pos(0, 0));
    assert_eq!(g.tick.elapsed_ms, 149);
    let out2 = g.update(quiet(), 1);
    assert!(!out2.nom && !out2.ouch);
    assert_eq!(g.snake.as_ref().unwrap().grid_pos, pos(0, 1));
}

#[test]
fn eat_schedules_one_growth() {
    let mut g = playing(vec![pos(0, 0)], 0, vec![], pos(0, 1));
    let out = g.update(quiet(), 150);
    assert!(out.nom && !out.ouch);
    assert_eq!(g.score, 1);
    assert!(g.food.is_none());
    assert_eq!(g.grows, vec![Grow { turns: 1, pos: pos(0, 1) }]);
    assert_eq!(g.tick.interval_ms, 140);
    assert_eq!(g.snake.as_ref().unwrap().body, VecDeque::from(vec![pos(0, 1)]));
}

#[test]
fn growth_applies_on_following_advance() {
    let mut g = playing(vec![pos(0, 0)], 0, vec![], pos(0, 1));
    g.update(quiet(), 150);
    g.food = Some(Food { pos: pos(5, 5) });
    let out = g.update(quiet(), 140);
    assert!(!out.nom && !out.ouch);
    let s = g.snake.as_ref().unwrap();
    assert_eq!(s.body, VecDeque::from(vec![pos(0, 2), pos(0, 1)]));
    assert!(g.grows.is_empty());
    assert_eq!(g.score, 1);
}

#[test]
fn two_eats_grow_body_by_two() {
    let mut g = playing(vec![pos(0, 0)], 0, vec![], pos(0, 1));
    let first = g.update(quiet(), 150);
    assert!(first.nom);
    g.food = Some(Food { pos: pos(0, 2) });
    let second = g.update(quiet(), 140);
    assert!(second.nom);
    assert_eq!(g.score, 2);
    assert_eq!(g.tick.interval_ms, 130);
    g.food = Some(Food { pos: pos(5, 5) });
    g.update(quiet(), 130);
    g.food = Some(Food { pos: pos(5, 5) });
    g.update(quiet(), 130);
    let s = g.snake.as_ref().unwrap();
    assert_eq!(s.body.len(), 3);
    assert_eq!(g.score, 2);
    assert!(g.grows.is_empty());
}

#[test]
fn growth_fifo_order() {
    let mut g = playing(
        vec![pos(0, 0)],
        2,
        vec![Grow { turns: 1, pos: pos(7, 7) }, Grow { turns: 2, pos: pos(8, 8) }],
        pos(5, 5),
    );
    g.update(quiet(), 150);
    let body_after_one: Vec<Pos> =
        g.snake.as_ref().unwrap().body.iter().copied().collect();
    assert_eq!(body_after_one, vec![pos(0, 1), pos(7, 7)]);
    assert_eq!(g.grows, vec![Grow { turns: 1, pos: pos(8, 8) }]);
    g.update(quiet(), 150);
    let body_after_two: Vec<Pos> =
        g.snake.as_ref().unwrap().body.iter().copied().collect();
    assert_eq!(body_after_two, vec![pos(0, 2), pos(0, 1), pos(8, 8)]);
    assert!(g.grows.is_empty());
}

#[test]
fn wall_death_clears_world() {
    let mut g = playing(vec![pos(0, 9)], 0, vec![], pos(5, 5));
    let out = g.update(quiet(), 150);
    assert!(out.ouch && !out.nom);
    assert_eq!(g.phase, Phase::Begin);
    assert!(g.snake.is_none());
    assert!(g.food.is_none());
    assert_eq!(g.tick.interval_ms, 150);
}

#[test]
fn self_collision_death() {
    let mut g = playing(vec![pos(0, 0), pos(0, 1), pos(1, 1), pos(1, 0)], 3, vec![], pos(5, 5));
    let out = g.update(quiet(), 150);
    assert!(out.ouch);
    assert_eq!(g.phase, Phase::Begin);
    assert!(g.snake.is_none());
    assert!(g.food.is_none());
}

#[test]
fn restart_resets_score_and_interval() {
    let mut g = playing(vec![pos(0, 9)], 0, vec![], pos(5, 5));
    g.score = 0;
    g.tick = TickRate { interval_ms: 120, elapsed_ms: 0 };
    g.update(quiet(), 120);
    assert_eq!(g.phase, Phase::Begin);
    assert_eq!(g.tick.interval_ms, 120);
    let out = g.update(start(), 0);
    assert!(out.ready);
    assert_eq!(g.tick.interval_ms, 150);
    assert_eq!(g.score, 0);
    assert_eq!(g.snake.as_ref().unwrap().body, VecDeque::from(vec![pos(0, 0)]));
}

#[test]
fn interval_floors_during_eats() {
    let mut g = playing(vec![pos(0, 0)], 0, vec![], pos(0, 1));
    g.tick = TickRate { interval_ms: 55, elapsed_ms: 0 };
    let out = g.update(quiet(), 55);
    assert!(out.nom);
    assert_eq!(g.tick.interval_ms, 50);
    g.food = Some(Food { pos: pos(0, 2) });
    let out2 = g.update(quiet(), 50);
    assert!(out2.nom);
    assert_eq!(g.tick.interval_ms, 50);
}

#[test]
fn spawned_food_avoids_body_and_stays_in_field() {
    let field = Field::centered(20, 20);
    for _ in 0..50 {
        let mut g = playing(vec![pos(0, 0)], 0, vec![], pos(5, 5));
        g.food = None;
        g.update(quiet(), 10);
        let f = g.food.expect("food should spawn on a sparse field");
        assert!(field.contains_pos(f.pos));
        let s = g.snake.as_ref().unwrap();
        assert!(!s.body.contains(&f.pos));
    }
}

#[test]
fn cells_tag_food_and_body() {
    let mut g = playing(vec![pos(0, 1), pos(0, 0)], 1, vec![], pos(3, 3));
    g.grows = vec![Grow { turns: 1, pos: pos(9, 9) }];
    let cells = g.cells();
    assert_eq!(
        cells,
        vec![
            Cell { pos: pos(3, 3), kind: CellKind::FoodItem },
            Cell { pos: pos(0, 1), kind: CellKind::BodySegment },
            Cell { pos: pos(0, 0), kind: CellKind::BodySegment },
        ]
    );
}

#[test]
fn cells_empty_while_idle() {
    let g = Game::new(Field::centered(20, 20));
    assert!(g.cells().is_empty());
}

#[test]
fn pending_direction_buffered_between_ticks() {
    let mut g = playing(vec![pos(0, 0)], 0, vec![], pos(5, 5));
    // input arrives mid-interval and is applied on the next advance
    g.update(FrameInput { start: false, up: false, down: false, left: false, right: true }, 10);
    assert_eq!(g.snake.as_ref().unwrap().dirs.next_dir, Dir { dx: 1, dy: 0 });
    g.update(quiet(), 140);
    let s = g.snake.as_ref().unwrap();
    assert_eq!(s.dirs.curr_dir, Dir { dx: 1, dy: 0 });
    assert_eq!(s.grid_pos, pos(1, 0));
}

#[test]
fn reversal_cannot_turn_snake_back() {
    let mut g = playing(vec![pos(0, 0)], 0, vec![], pos(5, 5));
    g.update(FrameInput { start: false, up: false, down: true, left: false, right: false }, 150);
    let s = g.snake.as_ref().unwrap();
    assert_eq!(s.dirs.curr_dir, Dir { dx: 0, dy: 1 });
    assert_eq!(s.grid_pos, pos(0, 1));
}
