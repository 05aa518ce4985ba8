//! The strike minigame: a bar crosses the board, and the strike latches when
//! the player presses the action key or the bar reaches the far edge.

use vstd::prelude::*;
use crate::board::BulletBoard;
use crate::decisions::{DecisionEntities, Decisions};
use crate::fixed::{div_floor, floor_div, half, lemma_product_bound, saturate, saturated, UNITS_PER_PIXEL};

verus! {

/// The timing constants of the strike minigame, from the configuration.
#[derive(Clone, Copy, Debug, PartialEq, Eq, Structural)]
pub struct FightBarData {
    /// How long the bar takes to fade once the impact flash is over.
    pub fade_time: u32,
    /// How long the impact flash lasts.
    pub attack_animation: u32,
}

/// The state of the strike minigame.
#[derive(Clone, Copy, Debug, PartialEq, Eq, Structural)]
pub struct FightManager {
    /// The time the impact flash has left.
    pub attack_animation: u32,
    /// The time the fade has left.
    pub fade_timer: u32,
    /// Set once the bar has reached the far edge or the player has struck.
    pub strike: bool,
    /// Where the timing bar is, relative to the board's centre.
    pub position: i32,
    /// Set once the encounter has been told to go on to the next attack.
    pub exit_fight_menu: bool,
}

/// What a tick of the minigame asks of the caller, and what it shows.
#[derive(Clone, Copy, Debug, PartialEq, Eq, Structural)]
pub struct FightVisuals {
    /// The encounter is to go on to the next attack.
    pub advance_attack: bool,
    /// The opacity and the horizontal scale of the strike bar, in thousandths.
    pub fade_ratio: u32,
    /// Whether the timing bar is shown.
    pub timing_bar_visible: bool,
}

/// Where the timing bar starts: left of the board, a border's width beyond
/// half the board's width.
pub open spec fn bar_start(board: BulletBoard) -> int {
    saturated(-board.border - floor_div(board.width as int, 2))
}

/// Where the timing bar ends: right of the board, a border's width beyond
/// half the board's width.
pub open spec fn bar_end(board: BulletBoard) -> int {
    floor_div(board.width as int, 2) + board.border
}

/// The part of the fade that is left, in thousandths, rounded down; 0 where
/// the fade takes no time.
pub open spec fn fade_ratio_spec(fade_timer: int, fade_time: int) -> int {
    if fade_time <= 0 {
        0
    } else if fade_timer >= fade_time {
        1000
    } else {
        (fade_timer * 1000) / fade_time
    }
}

impl FightManager {
    /// The minigame at rest: nothing struck, the bar at the board's centre.
    pub fn new() -> (fight: FightManager)
        ensures
            fight == (FightManager {
                attack_animation: 0,
                fade_timer: 0,
                strike: false,
                position: 0,
                exit_fight_menu: false,
            }),
    {
        FightManager {
            attack_animation: 0,
            fade_timer: 0,
            strike: false,
            position: 0,
            exit_fight_menu: false,
        }
    }

    /// The minigame after one tick of `dt` microseconds.
    ///
    /// Nothing moves before the strike. After it the impact flash runs down;
    /// from the tick on which it is over, the fade runs down too, the
    /// encounter has been told to go on, and with the fade the strike ends.
    pub open spec fn ticked(self, dt: int) -> FightManager {
        if !self.strike {
            self
        } else if self.attack_animation > dt {
            FightManager { attack_animation: (self.attack_animation - dt) as u32, ..self }
        } else {
            FightManager {
                attack_animation: 0,
                fade_timer: if self.fade_timer > dt {
                    (self.fade_timer - dt) as u32
                } else {
                    0
                },
                strike: self.fade_timer > dt,
                exit_fight_menu: true,
                ..self
            }
        }
    }

    /// Whether this tick is the one on which the encounter is told to go on:
    /// the first on which the impact flash is over after a strike.
    pub open spec fn advances(self, dt: int) -> bool {
        self.strike && self.attack_animation <= dt && !self.exit_fight_menu
    }
}

/// Sets the minigame up on entry to the fight phase: the bar at its start,
/// the timers from the configuration, nothing struck and nothing told yet.
/// The rows of the decision menu are taken off the books and handed back to
/// be removed from the screen.
pub fn init_fight(
    fight: &mut FightManager,
    bullet_board: &BulletBoard,
    data: &FightBarData,
    decisions: &mut Decisions,
) -> (removed: DecisionEntities)
    ensures
        *final(fight) == (FightManager {
            attack_animation: data.attack_animation,
            fade_timer: data.fade_time,
            strike: false,
            position: bar_start(*bullet_board) as i32,
            exit_fight_menu: false,
        }),
        removed == old(decisions).menu_entities,
        (*final(decisions)).is_without_rows(*old(decisions)),
        old(decisions).wf() ==> final(decisions).wf(),
{
    let removed: DecisionEntities = decisions.remove_decisions();
    fight.position = saturate(-(bullet_board.border as i64) - half(bullet_board.width) as i64);
    fight.fade_timer = data.fade_time;
    fight.attack_animation = data.attack_animation;
    fight.exit_fight_menu = false;
    fight.strike = false;
    removed
}

/// One tick of the timing bar: until the strike it advances by `attack_speed`;
/// once it has reached the far edge the strike is latched. Returns the whole
/// pixel at which the bar is drawn.
pub fn update_fight_bar(fight: &mut FightManager, bullet_board: &BulletBoard, attack_speed: i32) -> (pixel:
    i32)
    ensures
        final(fight).position == (if old(fight).strike {
            old(fight).position as int
        } else {
            saturated(old(fight).position + attack_speed)
        }),
        final(fight).strike == (old(fight).strike || final(fight).position >= bar_end(
            *bullet_board,
        )),
        final(fight).attack_animation == old(fight).attack_animation,
        final(fight).fade_timer == old(fight).fade_timer,
        final(fight).exit_fight_menu == old(fight).exit_fight_menu,
        pixel == floor_div(final(fight).position as int, UNITS_PER_PIXEL as int),
{
    if !fight.strike {
        fight.position = saturate(fight.position as i64 + attack_speed as i64);
    }
    let edge: i64 = half(bullet_board.width) as i64 + bullet_board.border as i64;
    if fight.position as i64 >= edge {
        fight.strike = true;
    }
    let pixel: i64 = div_floor(fight.position as i64, 1000);
    pixel as i32
}

/// The player's strike: latched when the action key went down on this frame.
pub fn update_fight_controls(fight: &mut FightManager, action_pressed: bool)
    ensures
        *final(fight) == (FightManager {
            strike: old(fight).strike || action_pressed,
            ..*old(fight)
        }),
{
    if action_pressed {
        fight.strike = true;
    }
}

/// One tick of what follows the strike, and what the bars show after it.
///
/// The encounter is told to go on exactly once: on the first tick on which
/// the impact flash is over.
pub fn update_visibility(fight: &mut FightManager, data: &FightBarData, dt: u32) -> (visuals:
    FightVisuals)
    ensures
        *final(fight) == old(fight).ticked(dt as int),
        visuals.advance_attack == old(fight).advances(dt as int),
        old(fight).exit_fight_menu ==> !visuals.advance_attack && final(fight).exit_fight_menu,
        visuals.advance_attack ==> final(fight).exit_fight_menu,
        visuals.fade_ratio == fade_ratio_spec(
            final(fight).fade_timer as int,
            data.fade_time as int,
        ),
        visuals.fade_ratio <= 1000,
        visuals.timing_bar_visible == (final(fight).attack_animation > 0),
{
    let mut advance_attack: bool = false;
    if fight.strike {
        fight.attack_animation = fight.attack_animation.saturating_sub(dt);
        if fight.attack_animation == 0 {
            fight.fade_timer = fight.fade_timer.saturating_sub(dt);
            if fight.fade_timer == 0 {
                fight.strike = false;
            }
            if !fight.exit_fight_menu {
                advance_attack = true;
            }
            fight.exit_fight_menu = true;
        }
    }
    FightVisuals {
        advance_attack,
        fade_ratio: fade_ratio(fight.fade_timer, data.fade_time),
        timing_bar_visible: fight.attack_animation > 0,
    }
}

/// The part of the fade that is left, in thousandths.
pub fn fade_ratio(fade_timer: u32, fade_time: u32) -> (ratio: u32)
    ensures
        ratio == fade_ratio_spec(fade_timer as int, fade_time as int),
        ratio <= 1000,
{
    if fade_time == 0 {
        0
    } else if fade_timer >= fade_time {
        1000
    } else {
        proof {
            lemma_product_bound(fade_timer as int, 1000, 0xffff_ffff, 1000);
            let p = fade_timer as int * 1000;
            let t = fade_time as int;
            vstd::arithmetic::div_mod::lemma_fundamental_div_mod(p, t);
            vstd::arithmetic::div_mod::lemma_mod_bound(p, t);
            vstd::arithmetic::div_mod::lemma_div_pos_is_pos(p, t);
            assert(p / t <= 1000) by (nonlinear_arith)
                requires
                    p == t * (p / t) + p % t,
                    p % t >= 0,
                    p < t * 1000,
                    t > 0,
            ;
        }
        ((fade_timer as u64 * 1000) / (fade_time as u64)) as u32
    }
}

/// Once the encounter has been told to go on, no later tick tells it again.
pub proof fn lemma_advance_once(fight: FightManager, dt1: int, dt2: int)
    requires
        dt1 >= 0,
        fight.advances(dt1),
    ensures
        !fight.ticked(dt1).advances(dt2),
        fight.ticked(dt1).exit_fight_menu,
{
}

} // verus!
