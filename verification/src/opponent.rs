//! The opponent: where it stands, how much health it has, and the bar that
//! shows the loss after a strike.

use vstd::prelude::*;
use crate::board::{between, BulletBoard};
use crate::fight::FightManager;
use crate::fixed::{clamp, div_nearest, floor_div, half, lemma_rounded_quotient_scaled, magnitude, round_div, saturate, saturated, MICROS_PER_SECOND};
use crate::geometry::Vec2i;
use crate::health::damaged;

verus! {

/// The gap between the board's upper border and the opponent's sprite.
pub const OPPONENT_GAP: i32 = 10_000;

/// What the configuration says of the opponent.
#[derive(Clone, Copy, Debug, PartialEq, Eq, Structural)]
pub struct OpponentData {
    /// The health that the opponent starts with.
    pub health: i32,
    /// The height of the opponent's sprite.
    pub height: i32,
}

/// The opponent's health.
#[derive(Clone, Copy, Debug, PartialEq, Eq, Structural)]
pub struct OpponentHealth {
    pub health: i32,
    pub max_health: i32,
}

/// The health before and after the last strike, for the bar to show.
#[derive(Clone, Copy, Debug, PartialEq, Eq, Structural)]
pub struct OpponentHealthBarManager {
    pub old_health: i32,
    pub new_health: i32,
    pub damage_display: i32,
}

/// A health bar as it is drawn.
#[derive(Clone, Copy, Debug, PartialEq, Eq, Structural)]
pub struct HealthBar {
    pub position: Vec2i,
    pub health: i32,
    pub max_health: i32,
    /// The bar's size.
    pub custom_size: Vec2i,
}

/// What a tick does to the visibility of the opponent's health bar.
#[derive(Clone, Copy, Debug, PartialEq, Eq, Structural)]
pub enum BarVisibility {
    Visible,
    Hidden,
    Unchanged,
}

/// Where the opponent stands: centred above the board, the gap above the
/// upper border, by half its own height.
pub open spec fn opponent_position_spec(board: BulletBoard, opponent_height: int) -> Vec2i {
    Vec2i {
        x: 0,
        y: saturated(
            board.position.y + floor_div(board.height as int, 2) + board.border + OPPONENT_GAP
                + floor_div(opponent_height, 2),
        ) as i32,
    }
}

/// Where the opponent stands.
pub fn update_opponent_position(bullet_board: &BulletBoard, opponent_height: i32) -> (position:
    Vec2i)
    ensures
        position == opponent_position_spec(*bullet_board, opponent_height as int),
{
    let y: i64 = bullet_board.position.y as i64 + half(bullet_board.height) as i64
        + bullet_board.border as i64 + OPPONENT_GAP as i64 + half(opponent_height) as i64;
    Vec2i { x: 0, y: saturate(y) }
}

/// The health that the bar shows while the impact flash has `attack_animation`
/// microseconds left: the new health, and of the loss the part of a second
/// that is left, rounded to the nearest whole.
pub open spec fn shown_health(old_health: int, new_health: int, attack_animation: int) -> int {
    new_health + round_div((old_health - new_health) * attack_animation, MICROS_PER_SECOND as int)
}

/// The health that the bar shows lies between the health after the strike and
/// the health before it; it is the one before with a whole second left, and
/// the one after with nothing left.
pub proof fn lemma_shown_health_between(old_health: int, new_health: int, attack_animation: int)
    requires
        0 <= attack_animation <= MICROS_PER_SECOND,
    ensures
        between(new_health, shown_health(old_health, new_health, attack_animation), old_health),
        shown_health(old_health, new_health, 0) == new_health,
        shown_health(old_health, new_health, MICROS_PER_SECOND as int) == old_health,
{
    let diff = old_health - new_health;
    let m = magnitude(diff);
    let t = attack_animation;
    let b = MICROS_PER_SECOND as int;
    lemma_rounded_quotient_scaled(m, t, b);
    assert(magnitude(diff * t) == m * t && (diff > 0 ==> diff * t >= 0) && (diff < 0 ==> diff * t
        <= 0) && (diff == 0 ==> diff * t == 0)) by (nonlinear_arith)
        requires
            m == diff || m == -diff,
            m >= 0,
            t >= 0,
    ;
    assert(diff * 0 == 0);
    assert(magnitude(diff * b) == m * 1000000 && (diff > 0 ==> diff * b > 0) && (diff < 0 ==> diff
        * b < 0)) by (nonlinear_arith)
        requires
            m == diff || m == -diff,
            m >= 0,
            b == 1000000,
    ;
    assert((2 * (m * 1000000) + 1000000) / 2000000 == m);
}

impl OpponentHealth {
    /// The health lies between nothing and the maximum.
    pub open spec fn wf(self) -> bool {
        0 <= self.health <= self.max_health
    }

    /// Full health, as the configuration gives it. A negative health is taken
    /// as zero.
    pub fn new(data: &OpponentData) -> (opponent: OpponentHealth)
        ensures
            opponent.wf(),
            opponent.max_health == clamp(data.health as int, 0, i32::MAX as int),
            opponent.health == opponent.max_health,
    {
        let full: i32 = if data.health < 0 {
            0
        } else {
            data.health
        };
        OpponentHealth { health: full, max_health: full }
    }
}

/// A strike lands on the opponent: its health is lowered at once, held
/// between nothing and the maximum, and the bar keeps the health before and
/// after. Returns whether the opponent is defeated.
pub fn strike_opponent(
    opponent: &mut OpponentHealth,
    bar_manager: &mut OpponentHealthBarManager,
    damage: i32,
) -> (defeated: bool)
    ensures
        final(opponent).max_health == old(opponent).max_health,
        final(opponent).health == damaged(
            old(opponent).health as int,
            damage as int,
            old(opponent).max_health as int,
        ),
        *final(bar_manager) == (OpponentHealthBarManager {
            old_health: old(opponent).health,
            new_health: final(opponent).health,
            damage_display: damage,
        }),
        defeated == (final(opponent).health <= 0),
        old(opponent).max_health >= 0 ==> final(opponent).wf(),
{
    let before: i32 = opponent.health;
    let after: i64 = before as i64 - damage as i64;
    opponent.health = if after < 0 {
        0
    } else if after > opponent.max_health as i64 {
        opponent.max_health
    } else {
        after as i32
    };
    bar_manager.old_health = before;
    bar_manager.new_health = opponent.health;
    bar_manager.damage_display = damage;
    opponent.health <= 0
}

/// Whether the bar is brought up to date on this tick: after the strike, with
/// no more than a second of the impact flash left.
pub open spec fn bar_shows(fight: FightManager) -> bool {
    fight.strike && fight.attack_animation <= MICROS_PER_SECOND
}

/// The bar as it is shown while the impact flash runs: above the opponent's
/// sprite by half its own height, with the configured maximum and the health
/// between the one before and the one after the strike.
pub open spec fn bar_shown(
    bar: HealthBar,
    fight: FightManager,
    bar_manager: OpponentHealthBarManager,
    opponent: OpponentData,
    opponent_position: Vec2i,
) -> HealthBar {
    HealthBar {
        position: Vec2i {
            x: opponent_position.x,
            y: saturated(
                opponent_position.y + floor_div(opponent.height as int, 2) + floor_div(
                    bar.custom_size.y as int,
                    2,
                ),
            ) as i32,
        },
        health: shown_health(
            bar_manager.old_health as int,
            bar_manager.new_health as int,
            fight.attack_animation as int,
        ) as i32,
        max_health: opponent.health,
        ..bar
    }
}

/// One tick of the opponent's health bar.
///
/// Without a strike the bar is hidden. After a strike, once no more than a
/// second of the impact flash is left, the bar is shown above the opponent and
/// its health goes from the one before the strike to the one after it as the
/// flash runs down. Until then nothing changes.
pub fn update_enemy_healthbar(
    fight_manager: &FightManager,
    bar_manager: &OpponentHealthBarManager,
    opponent: &OpponentData,
    opponent_position: Vec2i,
    bar: &mut HealthBar,
) -> (visibility: BarVisibility)
    ensures
        !fight_manager.strike ==> visibility == BarVisibility::Hidden && *final(bar) == *old(bar),
        fight_manager.strike && !bar_shows(*fight_manager) ==> visibility
            == BarVisibility::Unchanged && *final(bar) == *old(bar),
        bar_shows(*fight_manager) ==> visibility == BarVisibility::Visible && *final(bar)
            == bar_shown(*old(bar), *fight_manager, *bar_manager, *opponent, opponent_position),
        bar_shows(*fight_manager) ==> between(
            bar_manager.new_health as int,
            final(bar).health as int,
            bar_manager.old_health as int,
        ),
{
    if !fight_manager.strike {
        return BarVisibility::Hidden;
    }
    if fight_manager.attack_animation > MICROS_PER_SECOND {
        return BarVisibility::Unchanged;
    }
    let diff: i64 = bar_manager.old_health as i64 - bar_manager.new_health as i64;
    let t: i64 = fight_manager.attack_animation as i64;
    proof {
        lemma_shown_health_between(
            bar_manager.old_health as int,
            bar_manager.new_health as int,
            fight_manager.attack_animation as int,
        );
        assert(-0x1_0000_0000 * 1000000 <= diff * t <= 0x1_0000_0000 * 1000000) by (nonlinear_arith)
            requires
                -0x1_0000_0000 <= diff <= 0x1_0000_0000,
                0 <= t <= 1000000,
        ;
    }
    let part: i64 = div_nearest(diff * t, MICROS_PER_SECOND);
    let y: i64 = opponent_position.y as i64 + half(opponent.height) as i64 + half(
        bar.custom_size.y,
    ) as i64;
    bar.max_health = opponent.health;
    bar.position = Vec2i { x: opponent_position.x, y: saturate(y) };
    bar.health = (bar_manager.new_health as i64 + part) as i32;
    BarVisibility::Visible
}

} // verus!
