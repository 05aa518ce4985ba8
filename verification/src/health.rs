//! Health, damage and the invincibility that follows a hit.

use vstd::prelude::*;
use crate::fixed::clamp;
use crate::physics::PhysicsComponent;

verus! {

/// The player's health and the timers that follow a hit.
#[derive(Clone, Copy, Debug, PartialEq, Eq, Structural)]
pub struct PlayerStats {
    pub health: i32,
    pub max_health: i32,
    /// The time for which the player cannot be hit again.
    pub invincibility: u32,
    /// The time until the sprite's opacity changes next.
    pub flash_animation: u32,
    /// The time between two changes of the sprite's opacity.
    pub interval: u32,
}

/// The damage that a body deals on touch.
#[derive(Clone, Copy, Debug, PartialEq, Eq, Structural)]
pub struct Damage {
    pub damage: i32,
}

/// `health` after `damage`, held between nothing and `max_health`.
pub open spec fn damaged(health: int, damage: int, max_health: int) -> int {
    clamp(health - damage, 0, max_health)
}

/// Whether the player's hitbox touches the hitbox of hazard `i`.
pub open spec fn touches(
    player: PhysicsComponent,
    hazards: Seq<(PhysicsComponent, Damage)>,
    i: int,
) -> bool {
    player.hitbox_spec().overlaps(hazards[i].0.hitbox_spec())
}

/// Hazard `i` is the first, in the order given, that the player touches.
pub open spec fn is_first_hit(
    player: PhysicsComponent,
    hazards: Seq<(PhysicsComponent, Damage)>,
    i: int,
) -> bool {
    &&& 0 <= i < hazards.len()
    &&& touches(player, hazards, i)
    &&& forall|j: int| 0 <= j < i ==> !touches(player, hazards, j)
}

/// The player touches no hazard.
pub open spec fn touches_none(
    player: PhysicsComponent,
    hazards: Seq<(PhysicsComponent, Damage)>,
) -> bool {
    forall|j: int| 0 <= j < hazards.len() ==> !touches(player, hazards, j)
}

fn clamp_health(value: i64, max_health: i32) -> (r: i32)
    requires
        -0x1_0000_0000 <= value <= 0x1_0000_0000,
    ensures
        r == clamp(value as int, 0, max_health as int),
{
    if value < 0 {
        0
    } else if value > max_health as i64 {
        max_health
    } else {
        value as i32
    }
}

impl PlayerStats {
    /// The health lies between nothing and the maximum.
    pub open spec fn wf(self) -> bool {
        0 <= self.health <= self.max_health
    }

    /// Full health of `max_health`, no timer running. A negative maximum is
    /// taken as zero.
    pub fn new(max_health: i32, interval: u32) -> (stats: PlayerStats)
        ensures
            stats.wf(),
            stats == (PlayerStats {
                health: clamp(max_health as int, 0, i32::MAX as int) as i32,
                max_health: clamp(max_health as int, 0, i32::MAX as int) as i32,
                invincibility: 0,
                flash_animation: 0,
                interval,
            }),
    {
        let full: i32 = if max_health < 0 {
            0
        } else {
            max_health
        };
        PlayerStats { health: full, max_health: full, invincibility: 0, flash_animation: 0, interval }
    }

    /// The stats after a hit of `damage`: the health is lowered, and held
    /// between nothing and the maximum; the player is invincible for `iframes`.
    pub open spec fn hit(self, damage: int, iframes: u32) -> PlayerStats {
        PlayerStats {
            health: damaged(self.health as int, damage, self.max_health as int) as i32,
            invincibility: iframes,
            ..self
        }
    }

    /// Takes a hit of `damage`.
    pub fn apply_damage(&mut self, damage: i32, iframes: u32)
        ensures
            *final(self) == old(self).hit(damage as int, iframes),
            old(self).max_health >= 0 ==> final(self).wf(),
    {
        self.invincibility = iframes;
        self.health = clamp_health(self.health as i64 - damage as i64, self.max_health);
    }

    /// The stats after `dt` microseconds of the flash animation.
    ///
    /// The invincibility runs down. While any is left, the flash timer runs
    /// down too, and starts again from the interval when it reaches zero.
    pub open spec fn flashed(self, dt: int) -> PlayerStats {
        if self.invincibility > dt {
            PlayerStats {
                invincibility: (self.invincibility - dt) as u32,
                flash_animation: if self.flash_animation > dt {
                    (self.flash_animation - dt) as u32
                } else {
                    self.interval
                },
                ..self
            }
        } else {
            PlayerStats { invincibility: 0, ..self }
        }
    }

    /// Whether the sprite is faint after `dt` microseconds of the flash
    /// animation, where it was `faint` before: without invincibility it is
    /// not; with it, it changes each time the flash timer reaches zero.
    pub open spec fn faint_after(self, faint: bool, dt: int) -> bool {
        if self.invincibility > dt {
            if self.flash_animation > dt {
                faint
            } else {
                !faint
            }
        } else {
            false
        }
    }
}

/// Applies the damage of the tick.
///
/// While the player is invincible nothing happens, whatever the player
/// touches. Otherwise the first hazard that the player touches, in the order
/// given, deals its damage and makes the player invincible for `iframes`; no
/// other hazard is looked at on this tick. Returns the place of that hazard.
pub fn update_damage(
    player_stats: &mut PlayerStats,
    player: &PhysicsComponent,
    hazards: &Vec<(PhysicsComponent, Damage)>,
    iframes: u32,
) -> (hit: Option<usize>)
    ensures
        old(player_stats).invincibility > 0 ==> hit is None && *final(player_stats) == *old(
            player_stats,
        ),
        old(player_stats).invincibility == 0 && touches_none(*player, hazards@) ==> hit is None
            && *final(player_stats) == *old(player_stats),
        old(player_stats).invincibility == 0 && !touches_none(*player, hazards@) ==> hit is Some,
        hit matches Some(i) ==> {
            &&& old(player_stats).invincibility == 0
            &&& is_first_hit(*player, hazards@, i as int)
            &&& *final(player_stats) == old(player_stats).hit(hazards@[i as int].1.damage as int, iframes)
        },
        old(player_stats).wf() ==> final(player_stats).wf(),
{
    if player_stats.invincibility > 0 {
        return None;
    }
    let rect_1 = player.hitbox();
    let mut i: usize = 0;
    while i < hazards.len()
        invariant
            i <= hazards@.len(),
            rect_1 == player.hitbox_spec(),
            *player_stats == *old(player_stats),
            player_stats.invincibility == 0,
            forall|j: int| 0 <= j < i ==> !touches(*player, hazards@, j),
        decreases hazards@.len() - i,
    {
        let rect_2 = hazards[i].0.hitbox();
        if rect_1.intersects(rect_2) {
            assert(touches(*player, hazards@, i as int));
            player_stats.apply_damage(hazards[i].1.damage, iframes);
            return Some(i);
        }
        i = i + 1;
    }
    None
}

/// One tick of the flash that shows invincibility. `faint` says whether the
/// sprite is faint now; the result says whether it is after the tick.
pub fn update_flash_animation(player_stats: &mut PlayerStats, faint: bool, dt: u32) -> (now_faint:
    bool)
    ensures
        *final(player_stats) == old(player_stats).flashed(dt as int),
        now_faint == old(player_stats).faint_after(faint, dt as int),
        final(player_stats).health == old(player_stats).health,
        final(player_stats).invincibility == 0 ==> !now_faint,
{
    player_stats.invincibility = player_stats.invincibility.saturating_sub(dt);
    if player_stats.invincibility > 0 {
        player_stats.flash_animation = player_stats.flash_animation.saturating_sub(dt);
        if player_stats.flash_animation == 0 {
            player_stats.flash_animation = player_stats.interval;
            !faint
        } else {
            faint
        }
    } else {
        false
    }
}

/// A hit never takes the health out of its bounds.
pub proof fn lemma_hit_keeps_health_in_bounds(stats: PlayerStats, damage: int, iframes: u32)
    requires
        stats.max_health >= 0,
    ensures
        stats.hit(damage, iframes).wf(),
        stats.hit(damage, iframes).max_health == stats.max_health,
{
}

/// The flash animation changes neither the health nor its bounds.
pub proof fn lemma_flash_keeps_health(stats: PlayerStats, dt: int)
    requires
        dt >= 0,
    ensures
        stats.flashed(dt).health == stats.health,
        stats.flashed(dt).max_health == stats.max_health,
        stats.wf() ==> stats.flashed(dt).wf(),
{
}

} // verus!
