use platformer::body::{jump, walk, Body, Direction, JUMP};
use platformer::sim::{simulate, GRAVITY, SPEED_X_MAX};
use platformer::world::{CellKind, TileWorld};

fn floor_world(width: usize, height: usize) -> TileWorld {
    let mut rows = Vec::new();
    for y in 0..height {
        if y + 1 == height {
            rows.push(vec![CellKind::Solid; width]);
        } else {
            rows.push(Vec::new());
        }
    }
    TileWorld::new(width, height, rows).unwrap()
}

#[test]
fn falling_body_settles_on_floor() {
    let world = floor_world(20, 10);
    let mut body = Body::spawn(1, 1);
    for _ in 0..30 {
        simulate(&world, &mut body);
    }
    assert!(body.on_ground);
    assert_eq!(body.y / 100, 8);
    assert_eq!(body.vx, 0);
    // gravity is added after the ground check, so one tick's worth remains
    assert_eq!(body.vy, GRAVITY);
    let before = body;
    for _ in 0..20 {
        simulate(&world, &mut body);
        assert_eq!(body, before);
    }
}

#[test]
fn walking_right_accelerates_up_to_max_speed() {
    let world = floor_world(20, 10);
    let mut body = Body::spawn(1, 8);
    walk(&mut body, Direction::Right);
    let mut reached_max = false;
    for tick in 0..10 {
        let before = body;
        simulate(&world, &mut body);
        assert!(body.vx <= SPEED_X_MAX);
        assert!(body.vx >= before.vx);
        if tick > 0 && !reached_max {
            assert!(body.x > before.x);
        }
        if body.vx == SPEED_X_MAX {
            reached_max = true;
        }
    }
    assert!(reached_max);
    assert_eq!(body.vx, SPEED_X_MAX);
}

#[test]
fn walking_ticks_exact_values() {
    let world = floor_world(20, 10);
    let mut body = Body::spawn(1, 8);
    walk(&mut body, Direction::Right);
    let expected = [(100, 15), (115, 30), (145, 45), (190, 60), (250, 60)];
    for (x, vx) in expected {
        simulate(&world, &mut body);
        assert_eq!((body.x, body.vx), (x, vx));
    }
    assert!(body.on_ground);
    assert_eq!(body.y, 800);
}

#[test]
fn jump_rises_with_gravity_each_tick() {
    let world = floor_world(20, 10);
    let mut body = Body::spawn(1, 8);
    simulate(&world, &mut body);
    simulate(&world, &mut body);
    assert!(body.on_ground);
    jump(&mut body);
    assert_eq!(body.vy, -JUMP);
    let mut prev = body.vy;
    for _ in 0..5 {
        simulate(&world, &mut body);
        assert!(!body.on_ground);
        assert_eq!(body.vy, prev + GRAVITY);
        prev = body.vy;
    }
    assert!(body.y < 800);
}

#[test]
fn jump_in_air_does_nothing() {
    let mut body = Body::spawn(3, 3);
    body.vy = 40;
    let before = body;
    jump(&mut body);
    assert_eq!(body, before);
}

#[test]
fn jump_lands_again() {
    let world = floor_world(20, 10);
    let mut body = Body::spawn(1, 8);
    simulate(&world, &mut body);
    simulate(&world, &mut body);
    jump(&mut body);
    let mut landed = false;
    for _ in 0..40 {
        simulate(&world, &mut body);
        assert!(body.y < 900);
        if body.on_ground {
            landed = true;
        }
    }
    assert!(landed);
    assert_eq!(body.y / 100, 8);
}

#[test]
fn resting_body_is_fixed_point() {
    let world = floor_world(10, 5);
    let mut body = Body { x: 300, y: 300, vx: 0, vy: GRAVITY, on_ground: true, walk_intent: None };
    let before = body;
    simulate(&world, &mut body);
    assert_eq!(body, before);
}

#[test]
fn resting_body_without_residual_gains_gravity() {
    let world = floor_world(10, 5);
    let mut body = Body { x: 300, y: 300, vx: 0, vy: 0, on_ground: false, walk_intent: None };
    simulate(&world, &mut body);
    assert_eq!(body, Body { x: 300, y: 300, vx: 0, vy: GRAVITY, on_ground: false, walk_intent: None });
    simulate(&world, &mut body);
    assert_eq!(body, Body { x: 300, y: 300, vx: 0, vy: GRAVITY, on_ground: true, walk_intent: None });
}

#[test]
fn fast_fall_stops_above_floor() {
    let world = floor_world(10, 10);
    let mut body = Body { x: 300, y: 120, vx: 0, vy: 950, on_ground: false, walk_intent: None };
    simulate(&world, &mut body);
    assert!(body.on_ground);
    assert_eq!(body.y, 820);
    assert_eq!(body.vy, GRAVITY);
}

#[test]
fn slow_fall_not_yet_at_floor() {
    let world = floor_world(10, 10);
    let mut body = Body { x: 300, y: 100, vx: 0, vy: 150, on_ground: false, walk_intent: None };
    simulate(&world, &mut body);
    assert!(!body.on_ground);
    assert_eq!(body.y, 250);
    assert_eq!(body.vy, 160);
}

#[test]
fn x_is_clamped_between_walls() {
    let world = floor_world(10, 5);
    let mut body = Body { x: 150, y: 100, vx: -300, vy: 0, on_ground: false, walk_intent: None };
    simulate(&world, &mut body);
    assert_eq!(body.x, 100);
    let mut body = Body { x: 850, y: 100, vx: 300, vy: 0, on_ground: false, walk_intent: None };
    simulate(&world, &mut body);
    assert_eq!(body.x, 900);
    let mut body = Body::spawn(1, 3);
    walk(&mut body, Direction::Left);
    for _ in 0..50 {
        simulate(&world, &mut body);
        assert!(body.x >= 100 && body.x <= 900);
    }
    assert_eq!(body.x, 100);
}

#[test]
fn wall_stops_horizontal_motion() {
    let mut rows = vec![Vec::new(); 5];
    rows[2] = vec![CellKind::Empty, CellKind::Empty, CellKind::Empty, CellKind::Empty, CellKind::Solid];
    let world = TileWorld::new(10, 5, rows).unwrap();
    let mut body = Body { x: 300, y: 200, vx: 50, vy: 0, on_ground: false, walk_intent: None };
    simulate(&world, &mut body);
    assert_eq!(body.x, 300);
    assert_eq!(body.vx, 0);
}

#[test]
fn ceiling_stops_rise() {
    let mut rows = vec![Vec::new(); 6];
    rows[1] = vec![CellKind::Solid; 10];
    let world = TileWorld::new(10, 6, rows).unwrap();
    let mut body = Body { x: 300, y: 400, vx: 0, vy: -250, on_ground: false, walk_intent: None };
    simulate(&world, &mut body);
    assert_eq!(body.y, 200);
    assert_eq!(body.vy, GRAVITY);
    assert!(!body.on_ground);
}

#[test]
fn damping_and_dead_zone() {
    let world = floor_world(20, 10);
    let mut body = Body { x: 500, y: 200, vx: 50, vy: 0, on_ground: false, walk_intent: None };
    simulate(&world, &mut body);
    assert_eq!(body.vx, 49);
    let mut body = Body { x: 500, y: 800, vx: 50, vy: GRAVITY, on_ground: true, walk_intent: None };
    simulate(&world, &mut body);
    assert_eq!(body.vx, 42);
    let mut body = Body { x: 500, y: 800, vx: -11, vy: GRAVITY, on_ground: true, walk_intent: None };
    simulate(&world, &mut body);
    assert_eq!(body.vx, 0);
}

#[test]
fn speed_snaps_to_intent_direction() {
    let world = floor_world(20, 10);
    let mut body = Body { x: 500, y: 200, vx: -100, vy: 0, on_ground: false, walk_intent: Some(Direction::Right) };
    simulate(&world, &mut body);
    assert_eq!(body.vx, SPEED_X_MAX);
}

#[test]
fn very_fast_fall_is_stopped_by_floor() {
    let world = floor_world(10, 10);
    let mut body = Body { x: 300, y: 0, vx: 0, vy: 100_000_000, on_ground: false, walk_intent: None };
    assert!(body.within_limits());
    simulate(&world, &mut body);
    assert!(body.on_ground);
    assert_eq!(body.y, 800);
}

#[test]
fn diagonal_fall_never_passes_floor() {
    let world = floor_world(10, 10);
    for vx in [-60i64, -35, 0, 20, 60] {
        for vy in [1i64, 30, 61, 99, 101, 149, 250, 777, 5000] {
            for y in [0i64, 350, 790, 799, 850, 899] {
                for x in [100i64, 480, 900] {
                    let mut body = Body { x, y, vx, vy, on_ground: false, walk_intent: None };
                    simulate(&world, &mut body);
                    assert!(body.y < 900, "x={} y={} vx={} vy={} ended at y={}", x, y, vx, vy, body.y);
                }
            }
        }
    }
}
