use platformer::body::{handle_key, walk, Body, Direction, KeyAction, JUMP};
use platformer::level::load_level;
use platformer::render::render;
use platformer::viewport::Viewport;
use platformer::world::{CellKind, TileWorld};

#[test]
fn toggle_same_direction_stops() {
    let mut body = Body::spawn(2, 2);
    walk(&mut body, Direction::Right);
    assert_eq!(body.walk_intent, Some(Direction::Right));
    walk(&mut body, Direction::Right);
    assert_eq!(body.walk_intent, None);
}

#[test]
fn toggle_opposite_direction_switches() {
    let mut body = Body::spawn(2, 2);
    walk(&mut body, Direction::Left);
    walk(&mut body, Direction::Right);
    assert_eq!(body.walk_intent, Some(Direction::Right));
    walk(&mut body, Direction::Left);
    assert_eq!(body.walk_intent, Some(Direction::Left));
}

#[test]
fn keys_are_applied() {
    let mut body = Body::spawn(2, 2);
    assert_eq!(handle_key(&mut body, b'q'), KeyAction::Quit);
    assert_eq!(handle_key(&mut body, b'd'), KeyAction::Continue);
    assert_eq!(body.walk_intent, Some(Direction::Right));
    handle_key(&mut body, b'a');
    assert_eq!(body.walk_intent, Some(Direction::Left));
    handle_key(&mut body, b'a');
    assert_eq!(body.walk_intent, None);
    handle_key(&mut body, b'w');
    assert_eq!(body.vy, 0);
    body.on_ground = true;
    handle_key(&mut body, b'w');
    assert_eq!(body.vy, -JUMP);
    let before = body;
    assert_eq!(handle_key(&mut body, b'x'), KeyAction::Continue);
    assert_eq!(body, before);
}

fn wide_world() -> TileWorld {
    let mut rows = vec![Vec::new(); 4];
    rows[3] = vec![CellKind::Solid; 100];
    TileWorld::new(100, 4, rows).unwrap()
}

#[test]
fn viewport_size_is_bounded_by_world() {
    let world = wide_world();
    let v = Viewport::new(&world, 30, 50);
    assert_eq!((v.left, v.top, v.width, v.height), (0, 0, 30, 4));
    let v = Viewport::new(&world, 300, 2);
    assert_eq!((v.width, v.height), (100, 2));
}

#[test]
fn viewport_follows_right_then_left() {
    let world = wide_world();
    let mut v = Viewport::new(&world, 10, 4);
    let mut body = Body::spawn(5, 1);
    v.follow(&world, &body);
    assert_eq!(v.left, 0);
    body.x = 700;
    v.follow(&world, &body);
    assert_eq!(v.left, 0);
    body.x = 750;
    v.follow(&world, &body);
    // 750 - 10 * 66 = 90, one tile
    assert_eq!(v.left, 0);
    body.x = 2000;
    v.follow(&world, &body);
    assert_eq!(v.left, 13);
    body.x = 1200;
    v.follow(&world, &body);
    assert_eq!(v.left, 8);
    body.x = 100;
    v.follow(&world, &body);
    assert_eq!(v.left, 0);
    assert_eq!(v.top, 0);
}

#[test]
fn viewport_never_passes_right_edge() {
    let world = wide_world();
    let mut v = Viewport::new(&world, 10, 4);
    let mut body = Body::spawn(1, 1);
    for x in 1..100 {
        body.x = x * 100;
        v.follow(&world, &body);
        assert!(v.left + v.width <= world.width);
    }
    body.x = 9_900;
    v.follow(&world, &body);
    assert_eq!(v.left, 90);
}

#[test]
fn render_draws_tiles_and_body() {
    let level = load_level(&level_chars("#  #\n @\n####")).unwrap();
    let v = Viewport::new(&level.world, 80, 24);
    let body = Body::spawn(level.spawn_x as u32, level.spawn_y as u32);
    let frame: String = render(&level.world, &v, &body).into_iter().collect();
    assert_eq!(frame, "#  #\r\n @  \r\n####");
}

#[test]
fn render_window_only() {
    let level = load_level(&level_chars("#  #\n @\n####")).unwrap();
    let v = Viewport { left: 1, top: 1, width: 2, height: 2 };
    let body = Body::spawn(3, 0);
    let frame: String = render(&level.world, &v, &body).into_iter().collect();
    assert_eq!(frame, "  \r\n##");
    let v = Viewport { left: 0, top: 0, width: 4, height: 1 };
    let frame: String = render(&level.world, &v, &body).into_iter().collect();
    assert_eq!(frame, "#  @");
}

fn level_chars(s: &str) -> Vec<char> {
    s.chars().collect()
}
