//! The player's soul: how it is set up and how it moves.

use vstd::prelude::*;
use crate::board::BulletBoard;
use crate::fixed::{clamp, directed, floor_div, half, saturate, saturated};
use crate::geometry::Vec2i;
use crate::health::PlayerStats;
use crate::physics::PhysicsComponent;

verus! {

/// What the configuration says of the player.
#[derive(Clone, Copy, Debug, PartialEq, Eq, Structural)]
pub struct PlayerData {
    /// How far the hitbox reaches to each side.
    pub half_size: Vec2i,
    /// The size of the sprite.
    pub sprite_size: Vec2i,
    /// How far the soul moves in a tick.
    pub speed: i32,
    pub health: i32,
    /// For how long a hit makes the player invincible.
    pub iframes: u32,
    /// The damage that a strike of the player deals.
    pub damage: i32,
    /// How far the timing bar moves in a tick.
    pub attack_speed: i32,
}

/// The directional keys that are held down.
#[derive(Clone, Copy, Debug, PartialEq, Eq, Structural)]
pub struct MoveKeys {
    pub up: bool,
    pub down: bool,
    pub left: bool,
    pub right: bool,
}

/// The direction that the keys ask for on one axis: 1 forward, -1 back, 0
/// with neither key or both.
pub open spec fn axis(forward: bool, back: bool) -> int {
    (if forward {
        1int
    } else {
        0int
    }) - (if back {
        1int
    } else {
        0int
    })
}

/// Where the soul is after a tick with the given keys held down.
pub open spec fn moved(position: Vec2i, keys: MoveKeys, speed: int) -> Vec2i {
    Vec2i {
        x: saturated(position.x + directed(axis(keys.right, keys.left), speed)) as i32,
        y: saturated(position.y + directed(axis(keys.up, keys.down), speed)) as i32,
    }
}

fn axis_step(forward: bool, back: bool, speed: i32) -> (r: i64)
    ensures
        r == directed(axis(forward, back), speed as int),
{
    if forward && !back {
        speed as i64
    } else if back && !forward {
        -(speed as i64)
    } else {
        0
    }
}

/// Sets the player up at the start of an encounter: full health as the
/// configuration gives it, and a soul at rest at the board's centre.
pub fn spawn_player(player_stats: &mut PlayerStats, data: &PlayerData, bullet_board: &BulletBoard) -> (soul:
    PhysicsComponent)
    ensures
        final(player_stats).health == clamp(data.health as int, 0, i32::MAX as int),
        final(player_stats).max_health == final(player_stats).health,
        final(player_stats).invincibility == old(player_stats).invincibility,
        final(player_stats).flash_animation == old(player_stats).flash_animation,
        final(player_stats).interval == old(player_stats).interval,
        final(player_stats).wf(),
        soul == (PhysicsComponent {
            position: bullet_board.position,
            velocity: Vec2i { x: 0, y: 0 },
            half_hitbox: data.half_size,
            half_size: Vec2i {
                x: floor_div(data.sprite_size.x as int, 2) as i32,
                y: floor_div(data.sprite_size.y as int, 2) as i32,
            },
        }),
{
    let full: i32 = if data.health < 0 {
        0
    } else {
        data.health
    };
    player_stats.health = full;
    player_stats.max_health = full;
    PhysicsComponent {
        position: bullet_board.position,
        velocity: Vec2i::zero(),
        half_hitbox: data.half_size,
        half_size: Vec2i { x: half(data.sprite_size.x), y: half(data.sprite_size.y) },
    }
}

/// On entry to the dodging phase: puts the soul at the board's centre.
pub fn move_soul(bullet_board: &BulletBoard, physics: &mut PhysicsComponent)
    ensures
        *final(physics) == (PhysicsComponent { position: bullet_board.position, ..*old(physics) }),
{
    physics.position = bullet_board.position;
}

/// One tick of the soul's movement: it moves by `speed` along each axis on
/// which one key of the two is held down.
pub fn player_movement(keys: &MoveKeys, physics: &mut PhysicsComponent, speed: i32)
    ensures
        *final(physics) == (PhysicsComponent {
            position: moved(old(physics).position, *keys, speed as int),
            ..*old(physics)
        }),
{
    let horizontal: i64 = axis_step(keys.right, keys.left, speed);
    let vertical: i64 = axis_step(keys.up, keys.down, speed);
    physics.position = Vec2i {
        x: saturate(physics.position.x as i64 + horizontal),
        y: saturate(physics.position.y as i64 + vertical),
    };
}

/// Keeps the soul inside the board: its sprite, which reaches half its size
/// to each side, is moved back into the interior.
pub fn constrain_player(bullet_board: &BulletBoard, physics: &mut PhysicsComponent, data: &PlayerData)
    ensures
        *final(physics) == (PhysicsComponent {
            position: bullet_board.constrain_point_spec(
                old(physics).position,
                Vec2i {
                    x: floor_div(data.sprite_size.x as int, 2) as i32,
                    y: floor_div(data.sprite_size.y as int, 2) as i32,
                },
            ),
            ..*old(physics)
        }),
{
    let extents: Vec2i = Vec2i { x: half(data.sprite_size.x), y: half(data.sprite_size.y) };
    physics.position = bullet_board.constrain_point(physics.position, extents);
}

} // verus!
