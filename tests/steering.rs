use koules::angle::{compass_heading, shortest_turn, turn_towards, wrap};
use koules::motion::{axis_unit, UNIT};
use koules::{Config, Keys, Player, Steering, Vector};

fn keys(left: bool, right: bool, up: bool, down: bool) -> Keys {
    Keys { left, right, up, down }
}

fn unit_of(h: i64) -> Vector {
    match axis_unit(h) {
        Some(u) => u,
        None => {
            let r = (h as f64 / 1000.0).to_radians();
            Vector::new((r.sin() * UNIT as f64).round() as i64, (r.cos() * UNIT as f64).round() as i64)
        }
    }
}

fn bearing_to(s: &Steering, pointer: &Vector) -> i64 {
    let d = s.position.offset_to(pointer);
    ((d.y as f64).atan2(d.x as f64).to_degrees() * 1000.0).round() as i64
}

fn pointer_tick(s: &mut Steering, pointer: &Vector) {
    let bearing = bearing_to(s, pointer);
    if s.steer_toward(pointer, bearing) {
        let unit = unit_of(s.player.direction);
        assert!(s.advance(unit));
    }
}

fn world(x: i64, y: i64) -> Vector {
    Vector::new(x * UNIT, y * UNIT)
}

#[test]
fn new_player_faces_up() {
    assert_eq!(Player::new().direction, 0);
    let s = Steering::new(Config::default());
    assert_eq!(s.player.direction, 0);
    assert_eq!(s.position, Vector::new(0, 0));
    assert_eq!(s.config, Config::new(3_000, 2));
}

#[test]
fn heading_wraps_both_ways() {
    let mut s = Steering::new(Config::default());
    s.turn_by_keys(&keys(true, false, false, false));
    assert_eq!(s.player.direction, 357_000);
    s.player.direction = 358_500;
    s.turn_by_keys(&keys(false, true, false, false));
    assert_eq!(s.player.direction, 1_500);
    assert_eq!(wrap(360_000), 0);
    assert_eq!(wrap(-1), 359_999);
}

#[test]
fn heading_stays_in_range_over_many_turns() {
    let mut s = Steering::new(Config::new(7_000, 2));
    for i in 0..500 {
        let k = keys(i % 3 == 0, i % 2 == 0, false, false);
        s.turn_by_keys(&k);
        assert!(0 <= s.player.direction && s.player.direction < 360_000);
        let p = world(100, -(i as i64));
        s.steer_toward(&p, bearing_to(&s, &p));
        assert!(0 <= s.player.direction && s.player.direction < 360_000);
    }
}

#[test]
fn shortest_turn_takes_the_short_way() {
    assert_eq!(shortest_turn(350_000, 10_000), -20_000);
    assert_eq!(shortest_turn(10_000, 350_000), 20_000);
    assert_eq!(shortest_turn(270_000, 0), -90_000);
    assert_eq!(shortest_turn(0, 180_000), 180_000);
    assert_eq!(shortest_turn(180_000, 0), 180_000);
    assert_eq!(turn_towards(10_000, 350_000, 3_000), 7_000);
    assert_eq!(turn_towards(1_000, 359_000, 3_000), 359_000);
    assert_eq!(turn_towards(0, 180_000, 3_000), 3_000);
    assert_eq!(turn_towards(0, 2_500, 3_000), 2_500);
    assert_eq!(turn_towards(0, 3_000, 3_000), 3_000);
}

#[test]
fn compass_heading_of_math_angles() {
    assert_eq!(compass_heading(0), 90_000);
    assert_eq!(compass_heading(90_000), 0);
    assert_eq!(compass_heading(180_000), 270_000);
    assert_eq!(compass_heading(-90_000), 180_000);
    assert_eq!(compass_heading(45_000), 45_000);
}

#[test]
fn dead_zone_leaves_state_unchanged() {
    let mut s = Steering::new(Config::default());
    s.position = world(10, 10);
    s.player.direction = 45_000;
    let before = s;
    let p = Vector::new(11 * UNIT + UNIT / 2, 9 * UNIT);
    assert!(s.near_pointer(&p));
    assert!(!s.steer_toward(&p, bearing_to(&s, &p)));
    assert_eq!(s, before);
    let far = Vector::new(12 * UNIT, 10 * UNIT);
    assert!(!s.near_pointer(&far));
}

#[test]
fn compass_translation() {
    let mut s = Steering::new(Config::default());
    assert!(s.thrust_by_keys(&keys(false, false, true, false), unit_of(0)));
    assert_eq!(s.position, world(0, 2));
    s.player.direction = 90_000;
    assert!(s.thrust_by_keys(&keys(false, false, false, true), unit_of(90_000)));
    assert_eq!(s.position, world(-2, 2));
    assert!(s.advance(unit_of(90_000)));
    assert_eq!(s.position, world(0, 2));
    assert_eq!(axis_unit(180_000), Some(Vector::new(0, -UNIT)));
    assert_eq!(axis_unit(270_000), Some(Vector::new(-UNIT, 0)));
    assert_eq!(axis_unit(45_000), None);
}

#[test]
fn opposite_keys_cancel() {
    let mut s = Steering::new(Config::default());
    s.player.direction = 123_000;
    let all = keys(true, true, true, true);
    s.turn_by_keys(&all);
    assert_eq!(s.player.direction, 123_000);
    assert!(s.thrust_by_keys(&all, unit_of(123_000)));
    assert_eq!(s.position, Vector::new(0, 0));
}

#[test]
fn move_outside_world_is_refused() {
    let mut s = Steering::new(Config::default());
    s.position = Vector::new(0, koules::motion::WORLD_LIMIT - 1);
    let before = s;
    assert!(!s.advance(unit_of(0)));
    assert_eq!(s, before);
}

#[test]
fn scenario_hold_right() {
    let mut s = Steering::new(Config::default());
    let k = keys(false, true, false, false);
    for _ in 0..30 {
        s.turn_by_keys(&k);
        assert!(s.thrust_by_keys(&k, unit_of(s.player.direction)));
    }
    assert_eq!(s.player.direction, 90_000);
    assert_eq!(s.position, Vector::new(0, 0));
}

#[test]
fn scenario_pointer_ahead() {
    let mut s = Steering::new(Config::default());
    let p = world(0, 100);
    assert_eq!(compass_heading(bearing_to(&s, &p)), 0);
    for i in 1..=20 {
        pointer_tick(&mut s, &p);
        assert_eq!(s.player.direction, 0);
        assert_eq!(s.position, world(0, 2 * i));
    }
}

#[test]
fn scenario_pointer_east() {
    let mut s = Steering::new(Config::default());
    let p = world(100, 0);
    assert_eq!(compass_heading(bearing_to(&s, &p)), 90_000);
    for i in 1..=30 {
        pointer_tick(&mut s, &p);
        assert_eq!(s.player.direction, 3_000 * i);
    }
    assert_eq!(s.player.direction, 90_000);
}

#[test]
fn scenario_pointer_east_held_bearing() {
    let mut s = Steering::new(Config::default());
    let p = world(100, 0);
    for i in 1..=40 {
        assert!(s.steer_toward(&p, 0));
        assert_eq!(s.player.direction, std::cmp::min(3_000 * i, 90_000));
    }
    let y = s.position.y;
    assert!(s.advance(unit_of(s.player.direction)));
    assert_eq!(s.position, Vector::new(2 * UNIT, y));
}
