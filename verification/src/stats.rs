//! The player's status line: the box below the board and the health bars in it.

use vstd::prelude::*;
use crate::board::BulletBoard;
use crate::fixed::{floor_div, half, saturate, saturated};
use crate::geometry::Vec2i;
use crate::health::PlayerStats;

verus! {

/// The width of the status box without the board's border.
pub const STATS_BOX_WIDTH: i32 = 570_000;

/// The height of the status box.
pub const STATS_BOX_HEIGHT: i32 = 42_000;

/// How far below the origin the status box begins.
pub const STATS_BOX_TOP: i32 = 145_000;

/// Where the health bars begin, from the left edge of the status box.
pub const HEALTH_BAR_LEFT: i32 = 245_000;

/// The height of a health bar.
pub const HEALTH_BAR_HEIGHT: i32 = 21_000;

/// One of the two bars that show the player's health.
#[derive(Clone, Copy, Debug, PartialEq, Eq, Structural)]
pub enum HealthBar {
    /// The bar of the health that is left.
    Green,
    /// The bar of the full health, behind the green one.
    Red,
}

/// The size and place of the status box.
#[derive(Clone, Copy, Debug, PartialEq, Eq, Structural)]
pub struct PlayerStatsBox {
    pub box_size: Vec2i,
    pub box_position: Vec2i,
}

/// The width of the bar for the given health: one length unit per pixel, and
/// six fifths of a pixel for each point of health.
pub open spec fn health_bar_width(health: int) -> int {
    1000 + 1200 * health
}

/// The size and place of the status box below a board with the given border.
pub open spec fn stats_box_spec(border: int) -> PlayerStatsBox {
    PlayerStatsBox {
        box_size: Vec2i { x: saturated(STATS_BOX_WIDTH + 2 * border) as i32, y: STATS_BOX_HEIGHT },
        box_position: Vec2i {
            x: 0,
            y: saturated(-STATS_BOX_TOP - STATS_BOX_HEIGHT / 2 - border) as i32,
        },
    }
}

/// The health that the given bar shows.
pub open spec fn bar_health(bar: HealthBar, stats: PlayerStats) -> int {
    match bar {
        HealthBar::Green => stats.health as int,
        HealthBar::Red => stats.max_health as int,
    }
}

/// Where the centre of a health bar lies on the x axis: the bar begins at a
/// fixed distance from the left edge of the status box.
pub open spec fn health_bar_x(health: int, box_width: int) -> int {
    HEALTH_BAR_LEFT + health_bar_width(health) / 2 - floor_div(box_width, 2)
}

/// Lays the status box out below the board.
pub fn spawn_stats(player_stats_box: &mut PlayerStatsBox, bullet_box: &BulletBoard)
    ensures
        *final(player_stats_box) == stats_box_spec(bullet_box.border as int),
{
    let border: i64 = bullet_box.border as i64;
    player_stats_box.box_size = Vec2i {
        x: saturate(STATS_BOX_WIDTH as i64 + 2 * border),
        y: STATS_BOX_HEIGHT,
    };
    player_stats_box.box_position = Vec2i {
        x: 0,
        y: saturate(-(STATS_BOX_TOP as i64) - (STATS_BOX_HEIGHT as i64) / 2 - border),
    };
}

/// Where the given health bar is drawn, and how wide: the green bar as wide
/// as the health that is left asks, the red one as the full health does.
pub fn update_health_bar(bar: HealthBar, player_stats_box: &PlayerStatsBox, player_stats: &PlayerStats) -> (placed:
    (i32, i32))
    ensures
        placed.0 == saturated(
            health_bar_x(bar_health(bar, *player_stats), player_stats_box.box_size.x as int),
        ),
        placed.1 == saturated(health_bar_width(bar_health(bar, *player_stats))),
{
    let health: i64 = match bar {
        HealthBar::Green => player_stats.health as i64,
        HealthBar::Red => player_stats.max_health as i64,
    };
    let width: i64 = 1000 + 1200 * health;
    let centre: i64 = if width >= 0 {
        width / 2
    } else {
        -((-width + 1) / 2)
    };
    let x: i64 = HEALTH_BAR_LEFT as i64 + centre - half(player_stats_box.box_size.x) as i64;
    (saturate(x), saturate(width))
}

} // verus!
