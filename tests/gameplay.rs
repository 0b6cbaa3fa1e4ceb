use crow_jewels::units::{JUMP_NUDGE, JUMP_SPEED, STEPS_PER_UNIT};
use crow_jewels::{
    Aabb, Collider, ColliderKind, HorizontalFlag, Keys, PlayerState, TickEvents, VerticalFlag,
    World,
};

const FRAME: u64 = 16_666_667;

fn keys(jump: bool, left: bool, right: bool) -> Keys {
    Keys { jump, left, right }
}

fn none() -> Keys {
    keys(false, false, false)
}

fn empty_world() -> World {
    World::with_walkers(&vec![])
}

#[test]
fn jump_from_spawn_point() {
    let mut w = empty_world();
    assert_eq!((w.player.x, w.player.y), (0, 150 * STEPS_PER_UNIT));
    assert_eq!(w.player.state, PlayerState::Idle);
    let ev = w.tick(keys(true, false, false), FRAME);
    assert_eq!(ev, TickEvents { flapped: true, died: false, restarted: false });
    assert_eq!(w.player.acceleration, 200);
    // 10 units of nudge and 200/60 units of flight: 13 1/3 units in all.
    assert_eq!(w.player.y - 150 * STEPS_PER_UNIT, 800);
    assert_eq!(w.player.y - 9000, JUMP_NUDGE + JUMP_SPEED);
    assert_eq!(w.player.state, PlayerState::Fly);
    assert_eq!(w.player.frame_index, 0);
}

#[test]
fn blocked_left_move_stays_put() {
    let mut w = empty_world();
    w.player.horizontal = HorizontalFlag::Left;
    w.tick(keys(false, true, false), FRAME);
    assert_eq!(w.player.x, 0);
    assert_ne!(w.player.state, PlayerState::Run);
}

#[test]
fn walker_closes_in_from_the_left() {
    let mut w = World::with_walkers(&vec![-300 * STEPS_PER_UNIT]);
    for k in 1..=5i64 {
        w.tick(none(), FRAME);
        assert_eq!(w.hazards[0].x, -18000 + 25 * k);
        assert!(!w.hazards[0].facing_left);
    }
}

#[test]
fn walker_out_of_reach_stands() {
    let mut w = World::with_walkers(&vec![350 * STEPS_PER_UNIT, 349 * STEPS_PER_UNIT]);
    w.tick(none(), FRAME);
    assert_eq!(w.hazards[0].x, 21000);
    assert_eq!(w.hazards[1].x, 20940 - 25);
    assert!(w.hazards[1].facing_left);
}

fn dead_world() -> World {
    let mut w = World::with_walkers(&vec![0]);
    w.player.y = 3000;
    w.player.vertical = VerticalFlag::Bottom;
    w.player.score = 4;
    let ev = w.tick(none(), FRAME);
    assert!(ev.died);
    w
}

#[test]
fn walker_contact_ends_game_and_freezes() {
    let mut w = dead_world();
    assert!(!w.player.alive);
    assert!(w.game_is_over());
    assert!(!w.game_not_over());
    let (x, y, score) = (w.player.x, w.player.y, w.player.score);
    let walker = w.hazards[0].x;
    for _ in 0..30 {
        let ev = w.tick(keys(false, true, false), FRAME);
        assert_eq!(ev, TickEvents { flapped: false, died: false, restarted: false });
        assert_eq!((w.player.x, w.player.y, w.player.score), (x, y, score));
        assert_eq!(w.hazards[0].x, walker);
    }
    assert_eq!(score, 4);
}

#[test]
fn wing_beat_restarts_after_death() {
    let mut w = dead_world();
    w.player.x = 500;
    let ev = w.tick(keys(true, false, false), FRAME);
    assert_eq!(ev, TickEvents { flapped: false, died: false, restarted: true });
    assert!(w.player.alive);
    assert_eq!(w.player.score, 0);
    assert_eq!((w.player.x, w.player.y), (0, 9000));
    assert!(w.game_not_over());
}

#[test]
fn gameover_screen_ignores_living_crow() {
    let mut w = empty_world();
    assert!(!w.gameover_screen(keys(true, false, false)));
    assert_eq!(w.player.y, 9000);
}

#[test]
fn jewel_scores_once_and_goes() {
    let mut w = empty_world();
    w.player.x = -9000;
    w.player.y = 3000;
    w.player.vertical = VerticalFlag::Bottom;
    w.tick(none(), FRAME);
    assert_eq!(w.player.score, 1);
    assert_eq!(w.colliders.len(), 8);
    assert!(w.colliders.iter().all(|c| c.kind == ColliderKind::Surface));
    assert_eq!(w.player.vertical, VerticalFlag::Bottom);
    for _ in 0..10 {
        w.tick(none(), FRAME);
    }
    assert_eq!(w.player.score, 1);
}

#[test]
fn grounded_crow_without_keys_does_not_move() {
    let mut w = empty_world();
    // On top of the middle floor slab, whose top lies at height 0.
    w.player.x = 20000;
    w.player.y = 1790;
    w.player.vertical = VerticalFlag::Bottom;
    w.player.acceleration = 0;
    for _ in 0..120 {
        w.tick(none(), FRAME);
        assert_eq!((w.player.x, w.player.y), (20000, 1790));
        assert_eq!(w.player.vertical, VerticalFlag::Bottom);
        assert_eq!(w.player.acceleration, 0);
    }
}

#[test]
fn falling_crow_lands_and_stops() {
    let mut w = empty_world();
    w.player.x = 20000;
    let mut landed = false;
    for _ in 0..600 {
        w.tick(none(), FRAME);
        if w.player.vertical == VerticalFlag::Bottom {
            landed = true;
            assert_eq!(w.player.acceleration, 0);
        }
    }
    assert!(landed);
    let y = w.player.y;
    w.tick(none(), FRAME);
    assert_eq!(w.player.y, y);
}

#[test]
fn gravity_takes_five_per_airborne_tick() {
    let mut w = empty_world();
    w.tick(none(), FRAME);
    assert_eq!(w.player.acceleration, -5);
    assert_eq!(w.player.y, 9000 - 5);
    w.tick(none(), FRAME);
    assert_eq!(w.player.acceleration, -10);
    assert_eq!(w.player.y, 9000 - 15);
}

#[test]
fn left_wins_over_right() {
    let mut w = empty_world();
    w.tick(keys(false, true, true), FRAME);
    assert_eq!(w.player.x, -200);
    assert!(w.player.facing_left);
    assert_eq!(w.player.state, PlayerState::Run);
    assert_eq!(w.player.frame_index, 0);
}

#[test]
fn running_right_then_stopping() {
    let mut w = empty_world();
    w.tick(keys(false, false, true), FRAME);
    assert_eq!(w.player.x, 200);
    assert!(!w.player.facing_left);
    assert_eq!(w.player.state, PlayerState::Run);
    w.tick(none(), FRAME);
    assert_eq!(w.player.x, 200);
    assert_eq!(w.player.state, PlayerState::Idle);
    assert_eq!(w.player.frame_index, 0);
}

#[test]
fn world_edge_stops_moves_outwards() {
    let mut w = empty_world();
    w.player.x = -90000;
    w.tick(keys(false, true, false), FRAME);
    assert_eq!(w.player.x, -90000);
    w.player.x = -89990;
    w.tick(keys(false, true, false), FRAME);
    assert_eq!(w.player.x, -90000);
    w.player.x = -89999;
    w.tick(keys(false, true, false), FRAME);
    assert_eq!(w.player.x, -90000);
    w.player.x = 89900;
    w.tick(keys(false, false, true), FRAME);
    assert_eq!(w.player.x, 90000);
    w.tick(keys(false, false, true), FRAME);
    assert_eq!(w.player.x, 90000);
}

#[test]
fn walker_start_follows_the_draws() {
    assert_eq!(World::walker_x(300, 0), 18000);
    assert_eq!(World::walker_x(300, 1), -18000);
    assert_eq!(World::walker_x(1499, 1), -89940);
    assert_eq!(World::walker_x(1499, 0), 89940);
}

#[test]
fn flying_crow_does_not_start_running() {
    let mut w = empty_world();
    w.tick(keys(true, false, false), FRAME);
    w.tick(keys(false, true, false), FRAME);
    assert_eq!(w.player.state, PlayerState::Fly);
    assert_eq!(w.player.x, -200);
}

#[test]
fn landing_ends_flight() {
    let mut w = empty_world();
    w.player.state = PlayerState::Fly;
    w.player.frame_index = 3;
    w.player.vertical = VerticalFlag::Bottom;
    w.tick(none(), FRAME);
    assert_eq!(w.player.state, PlayerState::Idle);
    assert_eq!(w.player.frame_index, 0);
}

fn block(id: u64, x: i64, y: i64, width: i64, height: i64) -> Collider {
    Collider { id, bounds: Aabb { x, y, width, height }, kind: ColliderKind::Surface }
}

#[test]
fn first_touching_box_sets_each_axis() {
    let mut w = empty_world();
    w.player.x = 0;
    w.player.y = 0;
    w.colliders = vec![
        block(1, 500, 0, 3600, 1000),   // touches on the right
        block(2, 0, -1500, 1000, 3600), // touches below
        block(3, -500, 0, 3600, 1000),  // touches on the left, later
        block(4, 0, 1500, 1000, 3600),  // touches above, later
    ];
    w.resolve_collisions();
    assert_eq!(w.player.horizontal, HorizontalFlag::Right);
    assert_eq!(w.player.vertical, VerticalFlag::Bottom);
}

#[test]
fn untouched_axis_keeps_its_flag() {
    let mut w = empty_world();
    w.player.x = 0;
    w.player.y = 0;
    w.player.vertical = VerticalFlag::Top;
    w.colliders = vec![block(1, 9000, 0, 100, 100), block(2, -500, 0, 3600, 1000)];
    w.resolve_collisions();
    assert_eq!(w.player.horizontal, HorizontalFlag::Left);
    assert_eq!(w.player.vertical, VerticalFlag::Top);
}

#[test]
fn flags_clear_when_nothing_touches() {
    let mut w = empty_world();
    w.player.horizontal = HorizontalFlag::Right;
    w.player.vertical = VerticalFlag::Bottom;
    w.player.y = 100_000;
    w.resolve_collisions();
    assert_eq!(w.player.horizontal, HorizontalFlag::Clear);
    assert_eq!(w.player.vertical, VerticalFlag::Clear);
}

#[test]
fn score_stops_at_its_largest_value() {
    let mut w = empty_world();
    w.player.x = -9000;
    w.player.y = 3000;
    w.player.score = u64::MAX;
    w.resolve_collisions();
    assert_eq!(w.player.score, u64::MAX);
    assert_eq!(w.colliders.len(), 8);
}

#[test]
fn two_jewels_score_two() {
    let mut w = empty_world();
    w.player.x = -9000;
    w.player.y = 3000;
    assert_eq!(w.spawn_jewel_at(-9000), Some(9));
    w.resolve_collisions();
    assert_eq!(w.player.score, 2);
    assert_eq!(w.colliders.len(), 8);
}

#[test]
fn spawner_places_jewel_on_ground_line() {
    let mut w = empty_world();
    assert_eq!(w.next_id, 9);
    assert_eq!(w.spawn_jewel_at(600), Some(9));
    let c = *w.colliders.last().unwrap();
    assert_eq!(c, Collider {
        id: 9,
        bounds: Aabb { x: 600, y: 1200, width: 3840, height: 3840 },
        kind: ColliderKind::Jewel,
    });
    assert_eq!(w.next_id, 10);
    w.next_id = u64::MAX;
    assert_eq!(w.spawn_jewel_at(0), Some(u64::MAX));
    assert_eq!(w.next_id, 0);
}

#[test]
fn spawner_rests_while_dead() {
    let mut w = dead_world();
    let n = w.colliders.len();
    assert_eq!(w.spawn_jewel_at(0), None);
    assert_eq!(w.spawn_jewel(), None);
    assert_eq!(w.colliders.len(), n);
}

#[test]
fn random_jewels_land_in_range() {
    let mut w = empty_world();
    let mut xs = Vec::new();
    for _ in 0..40 {
        assert!(w.spawn_jewel().is_some());
        let x = w.colliders.last().unwrap().bounds.x;
        assert_eq!(x % 60, 0);
        assert!((-90000..90000).contains(&x));
        xs.push(x);
    }
    assert!(xs.iter().any(|&x| x != xs[0]));
    assert!(xs.iter().any(|&x| x != -90000));
}

#[test]
fn new_world_places_ten_walkers() {
    let w = World::new();
    assert_eq!(w.hazards.len(), 10);
    assert_eq!(w.colliders.len(), 9);
    for h in &w.hazards {
        assert_eq!(h.x % 60, 0);
        assert!((18000..90000).contains(&h.x.abs()));
        assert_eq!(h.y, 1200);
    }
    let first = w.hazards[0].x;
    let w2 = World::new();
    assert!(w.hazards.iter().chain(w2.hazards.iter()).any(|h| h.x != first));
    assert!(w.player.alive);
    assert_eq!(w.player.score, 0);
}
