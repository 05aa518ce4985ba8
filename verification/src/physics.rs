//! Simulated bodies: where they are, how they move, and what they touch.

use vstd::prelude::*;
use crate::fixed::{div_toward_zero, saturate, saturated, trunc_div, MICROS_PER_SECOND};
use crate::geometry::{Rectangle, Vec2i};

verus! {

/// A body of the simulation: player, opponent, bullet or debris.
///
/// The velocity is in length units per second; the hitbox and the sprite reach
/// `half_hitbox` and `half_size` to each side of the position.
#[derive(Clone, Copy, Debug, PartialEq, Eq, Structural)]
pub struct PhysicsComponent {
    pub position: Vec2i,
    pub velocity: Vec2i,
    pub half_hitbox: Vec2i,
    pub half_size: Vec2i,
}

/// How far a body with velocity `velocity` moves along one axis in `dt`
/// microseconds, rounded toward zero.
pub open spec fn travel(velocity: int, dt: int) -> int {
    trunc_div(velocity * dt, MICROS_PER_SECOND as int)
}

impl PhysicsComponent {
    /// A body at rest at `position`, with no extent.
    pub fn new(position: Vec2i) -> (body: PhysicsComponent)
        ensures
            body == (PhysicsComponent {
                position,
                velocity: Vec2i { x: 0, y: 0 },
                half_hitbox: Vec2i { x: 0, y: 0 },
                half_size: Vec2i { x: 0, y: 0 },
            }),
    {
        PhysicsComponent {
            position,
            velocity: Vec2i::zero(),
            half_hitbox: Vec2i::zero(),
            half_size: Vec2i::zero(),
        }
    }

    pub fn new_full(position: Vec2i, velocity: Vec2i, half_hitbox: Vec2i, half_size: Vec2i) -> (body:
        PhysicsComponent)
        ensures
            body == (PhysicsComponent { position, velocity, half_hitbox, half_size }),
    {
        PhysicsComponent { position, velocity, half_hitbox, half_size }
    }

    /// The rectangle that collisions test: the position, widened by the half
    /// hitbox to each side.
    pub open spec fn hitbox_spec(self) -> Rectangle {
        Rectangle::around(self.position, self.half_hitbox)
    }

    pub fn hitbox(&self) -> (r: Rectangle)
        ensures
            r == self.hitbox_spec(),
    {
        Rectangle::new_v(self.position, self.half_hitbox)
    }

    /// The body after `dt` microseconds of free movement.
    pub open spec fn integrated(self, dt: int) -> PhysicsComponent {
        PhysicsComponent {
            position: Vec2i {
                x: saturated(self.position.x + travel(self.velocity.x as int, dt)) as i32,
                y: saturated(self.position.y + travel(self.velocity.y as int, dt)) as i32,
            },
            ..self
        }
    }

    /// Moves the body by its velocity for `dt` microseconds.
    pub fn integrate(&mut self, dt: u32)
        ensures
            *final(self) == old(self).integrated(dt as int),
    {
        let tx: i64 = travel_exec(self.velocity.x, dt);
        let ty: i64 = travel_exec(self.velocity.y, dt);
        assert(-0x8000_0000_0000 <= tx <= 0x8000_0000_0000 && -0x8000_0000_0000 <= ty
            <= 0x8000_0000_0000);
        self.position = Vec2i {
            x: saturate(self.position.x as i64 + tx),
            y: saturate(self.position.y as i64 + ty),
        };
    }

    /// The whole pixel at which the body is drawn: the position rounded down.
    pub fn snapped(&self) -> (r: Vec2i)
        ensures
            r == self.position.pixel_spec(),
    {
        self.position.pixel()
    }
}

fn travel_exec(velocity: i32, dt: u32) -> (r: i64)
    ensures
        r == travel(velocity as int, dt as int),
        -0x8000_0000_0000 <= r <= 0x8000_0000_0000,
{
    let v: i64 = velocity as i64;
    let t: i64 = dt as i64;
    assert(-0x8000_0000 * 0xffff_ffff <= v * t <= 0x8000_0000 * 0xffff_ffff) by (nonlinear_arith)
        requires
            -0x8000_0000 <= v <= 0x7fff_ffff,
            0 <= t <= 0xffff_ffff,
    ;
    let r: i64 = div_toward_zero(v * t, MICROS_PER_SECOND);
    r
}

/// Moves every body by its velocity for `dt` microseconds.
pub fn integrate_objects(bodies: &mut Vec<PhysicsComponent>, dt: u32)
    ensures
        final(bodies)@.len() == old(bodies)@.len(),
        forall|i: int|
            0 <= i < old(bodies)@.len() ==> #[trigger] final(bodies)@[i] == old(bodies)@[i].integrated(
                dt as int,
            ),
{
    let n: usize = bodies.len();
    let mut i: usize = 0;
    while i < n
        invariant
            i <= n,
            bodies@.len() == n,
            old(bodies)@.len() == n,
            forall|j: int| 0 <= j < i ==> #[trigger] bodies@[j] == old(bodies)@[j].integrated(dt as int),
            forall|j: int| i <= j < n ==> #[trigger] bodies@[j] == old(bodies)@[j],
        decreases n - i,
    {
        let mut body: PhysicsComponent = bodies[i];
        body.integrate(dt);
        bodies[i] = body;
        i = i + 1;
    }
}

/// The whole pixel at which each body is drawn.
pub fn snap_objects(bodies: &Vec<PhysicsComponent>) -> (pixels: Vec<Vec2i>)
    ensures
        pixels@.len() == bodies@.len(),
        forall|i: int| 0 <= i < bodies@.len() ==> #[trigger] pixels@[i] == bodies@[i].position.pixel_spec(),
{
    let mut pixels: Vec<Vec2i> = Vec::new();
    let mut i: usize = 0;
    while i < bodies.len()
        invariant
            i <= bodies@.len(),
            pixels@.len() == i,
            forall|j: int| 0 <= j < i ==> #[trigger] pixels@[j] == bodies@[j].position.pixel_spec(),
        decreases bodies@.len() - i,
    {
        pixels.push(bodies[i].snapped());
        i = i + 1;
    }
    pixels
}

} // verus!
