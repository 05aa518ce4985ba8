//! The dodging phase: the time an attack has left, and the script that runs.

use vstd::prelude::*;
use crate::attacks::{attack_1, next_direction, volley_spec, Attack1, AttackScript, VOLLEY_SPACING};
use crate::board::BulletBoard;
use crate::menu::{MenuState, MenuTransition};
use crate::physics::PhysicsComponent;

verus! {

/// What the dodging phase runs, and for how long.
#[derive(Clone, Copy, Debug, PartialEq, Eq, Structural)]
pub struct DodgingPhaseManager {
    /// The time the attack has left.
    pub time: u32,
    /// The script that steps on every tick of the phase.
    pub attack: Option<AttackScript>,
    /// The script that ends the attack when its time is up.
    pub exit_attack: Option<AttackScript>,
}

/// What a tick of the dodging phase has done.
#[derive(Debug)]
pub struct DodgingOutcome {
    /// The bullets that were fired.
    pub bullets: Vec<PhysicsComponent>,
    /// The attack's time is up.
    pub over: bool,
    /// The script that ends the attack, to be run now.
    pub exit_attack: Option<AttackScript>,
}

impl DodgingPhaseManager {
    /// A dodging phase with nothing to run.
    pub fn new() -> (manager: DodgingPhaseManager)
        ensures
            manager == (DodgingPhaseManager { time: 0, attack: None, exit_attack: None }),
    {
        DodgingPhaseManager { time: 0, attack: None, exit_attack: None }
    }
}

/// One tick of the dodging phase.
///
/// The attack's time runs down by `dt`, and the script of the phase, where
/// there is one, steps and may fire bullets. When the time is up the attack
/// is over: its scripts are dropped, the one that ends it is handed back to
/// be run, and the selection phase is asked for, or the phase of the
/// opponent's defeat where the opponent is defeated.
pub fn update_dodging(
    dodging_manager: &mut DodgingPhaseManager,
    attack: &mut Attack1,
    bullet_board: &BulletBoard,
    menu_transition: &mut MenuTransition,
    opponent_defeated: bool,
    dt: u32,
) -> (result: DodgingOutcome)
    ensures
        result.over == (old(dodging_manager).time <= dt),
        result.exit_attack == (if result.over {
            old(dodging_manager).exit_attack
        } else {
            None
        }),
        final(dodging_manager).time == (if old(dodging_manager).time > dt {
            old(dodging_manager).time - dt
        } else {
            0
        }),
        final(dodging_manager).attack == (if result.over {
            None
        } else {
            old(dodging_manager).attack
        }),
        final(dodging_manager).exit_attack == (if result.over {
            None
        } else {
            old(dodging_manager).exit_attack
        }),
        final(menu_transition).current == old(menu_transition).current,
        final(menu_transition).pending == (if !result.over {
            old(menu_transition).pending
        } else if opponent_defeated {
            Some(MenuState::EnemyDeath)
        } else {
            Some(MenuState::Selection)
        }),
        old(dodging_manager).attack is None ==> *final(attack) == *old(attack)
            && result.bullets@.len() == 0,
        old(dodging_manager).attack is Some ==> {
            &&& final(attack).attack_time == old(attack).attack_time
            &&& old(attack).attack_timer > dt ==> {
                &&& final(attack).attack_timer == old(attack).attack_timer - dt
                &&& final(attack).attack_dir == old(attack).attack_dir
                &&& result.bullets@.len() == 0
            }
            &&& old(attack).attack_timer <= dt ==> {
                &&& final(attack).attack_timer == old(attack).attack_time
                &&& final(attack).attack_dir == next_direction(old(attack).attack_dir as int)
                &&& result.bullets@ == volley_spec(
                    *bullet_board,
                    old(attack).attack_dir as int,
                    VOLLEY_SPACING as int,
                )
            }
        },
{
    let bullets: Vec<PhysicsComponent> = match dodging_manager.attack {
        Some(AttackScript::Attack1) => attack_1(attack, bullet_board, dt),
        None => Vec::new(),
    };
    dodging_manager.time = dodging_manager.time.saturating_sub(dt);
    let over: bool = dodging_manager.time == 0;
    let mut exit_attack: Option<AttackScript> = None;
    if over {
        exit_attack = dodging_manager.exit_attack;
        dodging_manager.attack = None;
        dodging_manager.exit_attack = None;
        if opponent_defeated {
            menu_transition.request_transition(MenuState::EnemyDeath);
        } else {
            menu_transition.request_transition(MenuState::Selection);
        }
    }
    DodgingOutcome { bullets, over, exit_attack }
}

} // verus!
