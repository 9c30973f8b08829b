use sprite_demo::{
    wrap_axis, HeldKeys, Key, Movable, Viewport, PLAYER_HEIGHT, PLAYER_WIDTH, SCREEN_HEIGHT,
    SCREEN_WIDTH, SPEED,
};

fn screen() -> Viewport {
    Viewport { width: SCREEN_WIDTH, height: SCREEN_HEIGHT }
}

fn keys(up: bool, down: bool, left: bool, right: bool) -> HeldKeys {
    HeldKeys { up, down, left, right }
}

#[test]
fn zero_velocity_keeps_positions_in_band() {
    let view = screen();
    for p in [-31, -32, 0, 1, 400, 799, 800] {
        let mut m = Movable { x: p, y: p.min(600), w: 32, h: 32 };
        let before = m;
        m.step(&HeldKeys::none(), &view);
        assert_eq!(m, before);
    }
}

#[test]
fn wrap_low_edge() {
    assert_eq!(wrap_axis(-40, 32, 800), 792);
}

#[test]
fn wrap_high_edge() {
    assert_eq!(wrap_axis(801, 32, 800), -32);
}

#[test]
fn wrap_keeps_edges() {
    assert_eq!(wrap_axis(-32, 32, 800), -32);
    assert_eq!(wrap_axis(-33, 32, 800), 799);
    assert_eq!(wrap_axis(800, 32, 800), 800);
    assert_eq!(wrap_axis(i32::MIN, 0, 0), i32::MIN);
    assert_eq!(wrap_axis(i32::MAX, 0, 0), 0);
}

#[test]
fn wrap_moves_both_axes() {
    let mut m = Movable { x: -40, y: 601, w: 32, h: 32 };
    m.wrap(&screen());
    assert_eq!(m, Movable { x: 792, y: -32, w: 32, h: 32 });
}

#[test]
fn opposing_keys_cancel() {
    let view = screen();
    let mut m = Movable { x: 100, y: 200, w: 32, h: 32 };
    m.step(&keys(true, true, false, false), &view);
    assert_eq!((m.x, m.y), (100, 200));
    m.step(&keys(false, false, true, true), &view);
    assert_eq!((m.x, m.y), (100, 200));
    m.step(&keys(true, true, true, true), &view);
    assert_eq!((m.x, m.y), (100, 200));
}

#[test]
fn single_key_moves_one_tick() {
    let view = screen();
    let mut m = Movable { x: 100, y: 100, w: 32, h: 32 };
    m.step(&keys(false, false, false, true), &view);
    assert_eq!((m.x, m.y), (104, 100));
    m.step(&keys(true, false, false, false), &view);
    assert_eq!((m.x, m.y), (104, 96));
    m.step(&keys(false, true, true, false), &view);
    assert_eq!((m.x, m.y), (100, 100));
}

#[test]
fn step_wraps_after_moving() {
    let view = screen();
    let mut m = Movable { x: -30, y: 598, w: 32, h: 32 };
    m.step(&keys(false, true, true, false), &view);
    assert_eq!((m.x, m.y), (798, -32));
    m.step(&keys(false, false, false, true), &view);
    assert_eq!((m.x, m.y), (-32, -32));
    m.step(&HeldKeys::none(), &view);
    assert_eq!((m.x, m.y), (-32, -32));
}

#[test]
fn held_left_for_a_hundred_ticks() {
    let view = screen();
    let mut m = Movable::centered(&view, PLAYER_WIDTH, PLAYER_HEIGHT);
    assert_eq!((m.x, m.y), (384, 284));
    let left = HeldKeys::from_keys(&vec![Key::Left]);
    for _ in 0..100 {
        assert!(m.can_step(&left));
        m.step(&left, &view);
    }
    assert_eq!((m.x, m.y), (-16, 284));
}

#[test]
fn velocity_of_held_keys() {
    assert_eq!(HeldKeys::none().velocity(), (0, 0));
    assert_eq!(keys(false, false, false, true).velocity(), (SPEED, 0));
    assert_eq!(keys(true, false, true, false).velocity(), (-4, -4));
    assert_eq!(keys(true, true, true, true).velocity(), (0, 0));
}

#[test]
fn held_keys_from_pressed_list() {
    assert_eq!(HeldKeys::from_keys(&vec![]), HeldKeys::none());
    assert_eq!(
        HeldKeys::from_keys(&vec![Key::Right, Key::Up, Key::Right]),
        keys(true, false, false, true)
    );
    assert_eq!(
        HeldKeys::from_keys(&vec![Key::Down, Key::Left, Key::Up, Key::Right]),
        keys(true, true, true, true)
    );
}

#[test]
fn centered_rounds_halves_down() {
    let m = Movable::centered(&Viewport { width: 801, height: 5 }, 33, 20);
    assert_eq!(m, Movable { x: 384, y: -8, w: 33, h: 20 });
}

#[test]
fn can_step_at_the_limits() {
    let m = Movable { x: i32::MIN + 3, y: 0, w: 32, h: 32 };
    assert!(!m.can_step(&keys(false, false, true, false)));
    assert!(m.can_step(&keys(false, false, false, true)));
    let m = Movable { x: 0, y: i32::MAX - 4, w: 32, h: 32 };
    assert!(m.can_step(&keys(false, true, false, false)));
    let m = Movable { x: 0, y: i32::MAX - 3, w: 32, h: 32 };
    assert!(!m.can_step(&keys(false, true, false, false)));
}
