use encounter::fixed::{
    div_ceil, div_floor, div_nearest, div_toward_zero, half, sat_add, sat_sub, saturate,
    unsigned_abs,
};
use encounter::geometry::{Rectangle, Vec2i};
use encounter::physics::{integrate_objects, snap_objects, PhysicsComponent};

#[test]
fn saturate_stops_at_both_ends() {
    assert_eq!(saturate(5), 5);
    assert_eq!(saturate(i64::MAX), i32::MAX);
    assert_eq!(saturate(i64::MIN), i32::MIN);
    assert_eq!(sat_add(i32::MAX, 1), i32::MAX);
    assert_eq!(sat_sub(i32::MIN, 1), i32::MIN);
    assert_eq!(sat_add(2, 3), 5);
    assert_eq!(sat_sub(2, 3), -1);
}

#[test]
fn divisions_round_as_named() {
    assert_eq!(div_ceil(7, 2), 4);
    assert_eq!(div_ceil(-7, 2), -3);
    assert_eq!(div_ceil(8, 2), 4);
    assert_eq!(div_floor(7, 2), 3);
    assert_eq!(div_floor(-7, 2), -4);
    assert_eq!(div_floor(-8, 2), -4);
    assert_eq!(div_toward_zero(7, 2), 3);
    assert_eq!(div_toward_zero(-7, 2), -3);
    assert_eq!(div_nearest(5, 2), 3);
    assert_eq!(div_nearest(-5, 2), -3);
    assert_eq!(div_nearest(4, 3), 1);
    assert_eq!(div_nearest(5, 3), 2);
    assert_eq!(half(-3), -2);
    assert_eq!(half(3), 1);
}

#[test]
fn divisions_hold_at_the_ends_of_the_range() {
    assert_eq!(div_toward_zero(i64::MIN, 1), i64::MIN);
    assert_eq!(div_floor(i64::MIN, 1), i64::MIN);
    assert_eq!(div_ceil(i64::MAX, 1), i64::MAX);
    assert_eq!(div_nearest(i64::MIN, 1), i64::MIN);
    assert_eq!(unsigned_abs(i64::MIN), 1u64 << 63);
}

#[test]
fn vectors_add_scale_and_snap() {
    let a = Vec2i::new(1500, -1500);
    let b = Vec2i::splat(1000);
    assert_eq!(a.plus(b), Vec2i { x: 2500, y: -500 });
    assert_eq!(a.minus(b), Vec2i { x: 500, y: -2500 });
    assert_eq!(a.scaled(-2), Vec2i { x: -3000, y: 3000 });
    assert_eq!(a.pixel(), Vec2i { x: 1, y: -2 });
    assert_eq!(Vec2i::new(i32::MAX, 0).plus(b), Vec2i { x: i32::MAX, y: 1000 });
    assert_eq!(Vec2i::zero(), Vec2i { x: 0, y: 0 });
}

#[test]
fn with_length_scales_up_and_down() {
    assert_eq!(Vec2i::new(600, 800).with_length(2000), Vec2i { x: 1200, y: 1600 });
    assert_eq!(Vec2i::new(3000, -4000).with_length(2500), Vec2i { x: 1500, y: -2000 });
    assert_eq!(Vec2i::new(0, 0).with_length(2000), Vec2i { x: 0, y: 0 });
    assert_eq!(Vec2i::new(5, 5).with_length(0), Vec2i { x: 0, y: 0 });
    let r = Vec2i::new(1, 1).with_length(1000);
    assert!((r.x as i64) * (r.x as i64) + (r.y as i64) * (r.y as i64) <= 1_000_000);
    assert_eq!(r, Vec2i { x: 707, y: 707 });
}

#[test]
fn with_length_is_short_by_less_than_two_units() {
    let cases = [(1, 1), (7, 3), (-2, 9), (1, -1000), (123_456, 7), (i32::MAX, i32::MIN), (0, -1)];
    for length in [1i32, 2, 3, 1000, 2000, i32::MAX] {
        for (x, y) in cases {
            let r = Vec2i::new(x, y).with_length(length);
            let squared = (r.x as i128) * (r.x as i128) + (r.y as i128) * (r.y as i128);
            let l = length as i128;
            assert!(squared <= l * l);
            assert!(squared >= (l - 2) * (l - 2));
            assert!(r != Vec2i::zero());
            assert_eq!(r.x.signum(), if r.x == 0 { 0 } else { x.signum() });
            assert_eq!(r.y.signum(), if r.y == 0 { 0 } else { y.signum() });
        }
    }
}

#[test]
fn with_length_of_short_directions() {
    assert_eq!(Vec2i::new(1, 1).with_length(2000), Vec2i { x: 1414, y: 1414 });
    assert_eq!(Vec2i::new(7, 3).with_length(2000), Vec2i { x: 1838, y: 787 });
    assert_eq!(Vec2i::new(-1, 0).with_length(2000), Vec2i { x: -2000, y: 0 });
    assert_eq!(Vec2i::new(1, 1).with_length(1), Vec2i { x: 1, y: 0 });
    assert_eq!(Vec2i::new(-1, -3).with_length(1), Vec2i { x: 0, y: -1 });
}

#[test]
fn rectangles_touching_at_an_edge_intersect() {
    let a = Rectangle::new_v(Vec2i::new(0, 0), Vec2i::splat(10));
    let b = Rectangle::new_v(Vec2i::new(20, 0), Vec2i::splat(10));
    let c = Rectangle::new_v(Vec2i::new(21, 0), Vec2i::splat(10));
    assert_eq!(a.min, Vec2i { x: -10, y: -10 });
    assert_eq!(a.max, Vec2i { x: 10, y: 10 });
    assert!(a.intersects(b));
    assert!(b.intersects(a));
    assert!(!a.intersects(c));
    assert!(a.intersects(a));
}

#[test]
fn rectangles_apart_on_one_axis_do_not_intersect() {
    let a = Rectangle::new_v(Vec2i::new(0, 0), Vec2i::splat(10));
    let above = Rectangle::new_v(Vec2i::new(0, 30), Vec2i::splat(10));
    assert!(!a.intersects(above));
    let empty = Rectangle { min: Vec2i::new(5, 5), max: Vec2i::new(3, 3) };
    assert!(!empty.intersects(a));
    assert!(!a.intersects(empty));
}

#[test]
fn bodies_integrate_by_velocity_and_time() {
    let mut body = PhysicsComponent::new_full(
        Vec2i::new(0, 0),
        Vec2i::new(5000, -5000),
        Vec2i::splat(6000),
        Vec2i::splat(8000),
    );
    body.integrate(15_625);
    assert_eq!(body.position, Vec2i { x: 78, y: -78 });
    body.integrate(1_000_000);
    assert_eq!(body.position, Vec2i { x: 5078, y: -5078 });
    assert_eq!(body.velocity, Vec2i { x: 5000, y: -5000 });
    assert_eq!(body.hitbox().min, Vec2i { x: 5078 - 6000, y: -5078 - 6000 });
}

#[test]
fn all_bodies_integrate_and_snap() {
    let mut bodies = vec![
        PhysicsComponent::new(Vec2i::new(1500, -1500)),
        PhysicsComponent::new_full(
            Vec2i::new(0, 0),
            Vec2i::new(2000, 0),
            Vec2i::zero(),
            Vec2i::zero(),
        ),
    ];
    integrate_objects(&mut bodies, 500_000);
    assert_eq!(bodies[0].position, Vec2i { x: 1500, y: -1500 });
    assert_eq!(bodies[1].position, Vec2i { x: 1000, y: 0 });
    let pixels = snap_objects(&bodies);
    assert_eq!(pixels, vec![Vec2i { x: 1, y: -2 }, Vec2i { x: 1, y: 0 }]);
    assert_eq!(bodies[0].snapped(), Vec2i { x: 1, y: -2 });
}
