//! The course of an encounter: its attacks by turn, and what the actions of
//! the decision menus set off.

use vstd::prelude::*;
use crate::attacks::{enter_attack_1, Attack1, AttackScript, ATTACK_1_DURATION, ATTACK_1_INTERVAL};
use crate::board::{non_negative, BoardLayout, BulletBoard};
use crate::decisions::{DecisionEntities, Decisions, MenuAction};
use crate::dodging::DodgingPhaseManager;
use crate::health::damaged;
use crate::menu::{MenuState, MenuTransition};
use crate::opponent::{strike_opponent, OpponentHealth, OpponentHealthBarManager};
use crate::text::TextBox;

verus! {

/// An attack: the script that sets it up, the script that steps on every
/// tick of the dodging phase, and the script that ends it.
#[derive(Clone, Copy, Debug, PartialEq, Eq, Structural)]
pub struct Attack {
    pub enter_attack: Option<AttackScript>,
    pub attack: Option<AttackScript>,
    pub exit_attack: Option<AttackScript>,
}

/// The attacks of an encounter, one for each turn.
#[derive(Debug)]
pub struct BattleEvents {
    pub attacks: Vec<Attack>,
}

/// How far the encounter has come.
#[derive(Clone, Copy, Debug, PartialEq, Eq, Structural)]
pub struct Progress {
    /// The turns that have been started.
    pub turns: u32,
}

/// What an action of a decision menu sets off.
#[derive(Clone, Copy, Debug, PartialEq, Eq, Structural)]
pub struct ActionEffect {
    /// The phase that the action asks for.
    pub transition: Option<MenuState>,
    /// The rows of the decision menu are to be taken off the screen.
    pub remove_decisions: bool,
    /// The dialogue of the turn is to be shown, and the next attack is to
    /// start when it is over.
    pub talk: bool,
}

/// What waits for the dialogue on screen to end.
#[derive(Clone, Copy, Debug, PartialEq, Eq, Structural)]
pub struct DialogueQueue {
    /// The next attack starts when the dialogue is over.
    pub advance_attack: bool,
}

impl DialogueQueue {
    /// Nothing waits.
    pub fn new() -> (queue: DialogueQueue)
        ensures
            queue == (DialogueQueue { advance_attack: false }),
    {
        DialogueQueue { advance_attack: false }
    }
}

impl BattleEvents {
    /// The attacks of the encounter: the four-directional volley on the first
    /// turn.
    pub fn new() -> (events: BattleEvents)
        ensures
            events.attacks@ == seq![
                Attack {
                    enter_attack: Some(AttackScript::Attack1),
                    attack: Some(AttackScript::Attack1),
                    exit_attack: None,
                },
            ],
    {
        let mut attacks: Vec<Attack> = Vec::new();
        attacks.push(
            Attack {
                enter_attack: Some(AttackScript::Attack1),
                attack: Some(AttackScript::Attack1),
                exit_attack: None,
            },
        );
        BattleEvents { attacks }
    }
}

impl MenuAction {
    /// What the action sets off: the fight button's item opens the fight,
    /// talking takes the menu's rows off the screen and opens the dialogue,
    /// the other actions do nothing.
    pub open spec fn effect_spec(self) -> ActionEffect {
        match self {
            MenuAction::StartFight => ActionEffect {
                transition: Some(MenuState::Fight),
                remove_decisions: false,
                talk: false,
            },
            MenuAction::Talk => ActionEffect {
                transition: Some(MenuState::Text),
                remove_decisions: true,
                talk: true,
            },
            MenuAction::Check => ActionEffect {
                transition: None,
                remove_decisions: false,
                talk: false,
            },
            MenuAction::Item => ActionEffect {
                transition: None,
                remove_decisions: false,
                talk: false,
            },
        }
    }
}

/// Runs an action of a decision menu: the phase that it asks for is handed
/// to the coordinator, talking puts the next attack behind the dialogue, and
/// what the action sets off is returned.
pub fn run_action(
    action: MenuAction,
    menu_transition: &mut MenuTransition,
    queue: &mut DialogueQueue,
) -> (effect: ActionEffect)
    ensures
        effect == action.effect_spec(),
        final(menu_transition).current == old(menu_transition).current,
        final(menu_transition).pending == (match effect.transition {
            Some(state) => Some(state),
            None => old(menu_transition).pending,
        }),
        final(queue).advance_attack == (old(queue).advance_attack || effect.talk),
{
    let effect: ActionEffect = match action {
        MenuAction::StartFight => ActionEffect {
            transition: Some(MenuState::Fight),
            remove_decisions: false,
            talk: false,
        },
        MenuAction::Talk => ActionEffect {
            transition: Some(MenuState::Text),
            remove_decisions: true,
            talk: true,
        },
        MenuAction::Check => ActionEffect { transition: None, remove_decisions: false, talk: false },
        MenuAction::Item => ActionEffect { transition: None, remove_decisions: false, talk: false },
    };
    match effect.transition {
        Some(state) => {
            menu_transition.request_transition(state);
        },
        None => {},
    }
    if effect.talk {
        queue.advance_attack = true;
    }
    effect
}

/// The action key in the dialogue phase: it ends a dialogue that shows in
/// full. Returns whether the attack that waited behind the dialogue is to
/// start now; it then waits no longer.
pub fn update_dialogue(text_box: &TextBox, queue: &mut DialogueQueue, action_pressed: bool) -> (advance:
    bool)
    ensures
        advance == (old(queue).advance_attack && action_pressed && text_box.shown_len()
            == text_box.text@.len()),
        final(queue).advance_attack == (old(queue).advance_attack && !advance),
{
    if queue.advance_attack && action_pressed && text_box.is_revealed() {
        queue.advance_attack = false;
        true
    } else {
        false
    }
}

/// The strike of the fight phase lands on the opponent: its health is
/// lowered, and the bar keeps the health before and after. Where the
/// opponent has no health left, the phase of its defeat is asked for;
/// otherwise the encounter goes on. Returns whether the next attack is to
/// start.
pub fn resolve_strike(
    opponent: &mut OpponentHealth,
    bar_manager: &mut OpponentHealthBarManager,
    damage: i32,
    menu_transition: &mut MenuTransition,
) -> (next_attack: bool)
    ensures
        final(opponent).max_health == old(opponent).max_health,
        final(opponent).health == damaged(
            old(opponent).health as int,
            damage as int,
            old(opponent).max_health as int,
        ),
        *final(bar_manager) == (OpponentHealthBarManager {
            old_health: old(opponent).health,
            new_health: final(opponent).health,
            damage_display: damage,
        }),
        old(opponent).max_health >= 0 ==> final(opponent).wf(),
        next_attack == (final(opponent).health > 0),
        final(menu_transition).current == old(menu_transition).current,
        final(menu_transition).pending == (if next_attack {
            old(menu_transition).pending
        } else {
            Some(MenuState::EnemyDeath)
        }),
{
    let defeated: bool = strike_opponent(opponent, bar_manager, damage);
    if defeated {
        menu_transition.request_transition(MenuState::EnemyDeath);
    }
    !defeated
}

/// Starts the attack of the current turn, which the encounter must have.
///
/// The rows of the decision menu are taken off the books and handed back to
/// be removed from the screen. The dodging phase is asked for, the attack's
/// entry script runs, its step script becomes the one that the dodging phase
/// runs, its exit script the one that is handed back when the attack is
/// over, and the turn is counted. `layout` is the board layout of the attack.
pub fn enter_planned_attack(
    battle_events: &BattleEvents,
    progress: &mut Progress,
    menu_transition: &mut MenuTransition,
    bullet_board: &mut BulletBoard,
    decisions: &mut Decisions,
    dodging_manager: &mut DodgingPhaseManager,
    attack_1: &mut Attack1,
    layout: BoardLayout,
) -> (started: (Attack, DecisionEntities))
    requires
        old(progress).turns < battle_events.attacks@.len(),
        old(progress).turns < u32::MAX,
    ensures
        started.0 == battle_events.attacks@[old(progress).turns as int],
        started.1 == old(decisions).menu_entities,
        (*final(decisions)).is_without_rows(*old(decisions)),
        old(decisions).wf() ==> final(decisions).wf(),
        final(progress).turns == old(progress).turns + 1,
        *final(menu_transition) == (MenuTransition {
            current: old(menu_transition).current,
            pending: Some(MenuState::Dodging),
        }),
        final(dodging_manager).attack == started.0.attack,
        final(dodging_manager).exit_attack == started.0.exit_attack,
        started.0.enter_attack is None ==> {
            &&& *final(bullet_board) == *old(bullet_board)
            &&& final(dodging_manager).time == old(dodging_manager).time
            &&& *final(attack_1) == *old(attack_1)
        },
        started.0.enter_attack is Some ==> {
            &&& *final(bullet_board) == (BulletBoard {
                target_width: non_negative(layout.width as int) as i32,
                target_height: non_negative(layout.height as int) as i32,
                target_position: layout.position,
                ..*old(bullet_board)
            })
            &&& final(dodging_manager).time == ATTACK_1_DURATION
            &&& *final(attack_1) == (Attack1 {
                attack_timer: ATTACK_1_INTERVAL,
                attack_time: ATTACK_1_INTERVAL,
                attack_dir: 0,
            })
        },
{
    let removed: DecisionEntities = decisions.remove_decisions();
    menu_transition.request_transition(MenuState::Dodging);
    let attack: Attack = battle_events.attacks[progress.turns as usize];
    match attack.enter_attack {
        Some(AttackScript::Attack1) => {
            enter_attack_1(bullet_board, dodging_manager, attack_1, layout);
        },
        None => {},
    }
    dodging_manager.attack = attack.attack;
    dodging_manager.exit_attack = attack.exit_attack;
    progress.turns = progress.turns + 1;
    (attack, removed)
}

} // verus!
