use encounter::attacks::{
    attack_1, enter_attack_1, spawn_volley, Attack1, AttackScript, ATTACK_1_DURATION,
    ATTACK_1_INTERVAL,
};
use encounter::battle::{
    enter_planned_attack, resolve_strike, run_action, update_dialogue, Attack, BattleEvents,
    DialogueQueue, Progress,
};
use encounter::board::{BoardLayout, BulletBoard};
use encounter::decisions::{spawn_decision, Decisions, MenuAction};
use encounter::dodging::{update_dodging, DodgingPhaseManager};
use encounter::geometry::Vec2i;
use encounter::menu::{MenuState, MenuTransition};
use encounter::opponent::{OpponentHealth, OpponentHealthBarManager};
use encounter::text::{update_text, TextBox};

fn battle_board() -> BulletBoard {
    BulletBoard::new(155_000, 130_000, Vec2i::new(0, 0), 5_000, 4_000, 4_000)
}

fn layout() -> BoardLayout {
    BoardLayout { width: 155_000, height: 130_000, position: Vec2i::new(0, 0) }
}

#[test]
fn volley_of_the_battle_board_has_seven_bullets() {
    let bullets = spawn_volley(&battle_board(), 0, 20_000);
    assert_eq!(bullets.len(), 7);
    let ys: Vec<i32> = bullets.iter().map(|b| b.position.y).collect();
    assert_eq!(ys, vec![-80_000, -60_000, -40_000, -20_000, 20_000, 40_000, 60_000]);
    for b in bullets.iter() {
        assert_eq!(b.position.x, -155_000);
        assert_eq!(b.velocity, Vec2i { x: 5_000, y: 0 });
        assert_eq!(b.half_hitbox, Vec2i { x: 6_000, y: 6_000 });
        assert_eq!(b.half_size, Vec2i { x: 8_000, y: 8_000 });
    }
}

#[test]
fn volley_comes_from_each_side() {
    let board = BulletBoard::new(60_000, 60_000, Vec2i::new(1_000, 2_000), 0, 0, 0);
    let top = spawn_volley(&board, 1, 20_000);
    assert_eq!(top.len(), 3);
    assert_eq!(top[0].position, Vec2i { x: 31_000, y: 62_000 });
    assert_eq!(top[2].position, Vec2i { x: -9_000, y: 62_000 });
    assert_eq!(top[0].velocity, Vec2i { x: 0, y: -5_000 });
    let right = spawn_volley(&board, 2, 20_000);
    assert_eq!(right[0].position, Vec2i { x: 61_000, y: 32_000 });
    assert_eq!(right[0].velocity, Vec2i { x: -5_000, y: 0 });
    let bottom = spawn_volley(&board, 3, 20_000);
    assert_eq!(bottom[0].position, Vec2i { x: -29_000, y: -58_000 });
    assert_eq!(bottom[0].velocity, Vec2i { x: 0, y: 5_000 });
}

#[test]
fn volley_sides_are_counted_in_fours() {
    let board = BulletBoard::new(60_000, 60_000, Vec2i::new(1_000, 2_000), 0, 0, 0);
    for side in 0..4 {
        let first = spawn_volley(&board, side, 20_000);
        assert_eq!(spawn_volley(&board, side + 4, 20_000), first);
        assert_eq!(spawn_volley(&board, side - 4, 20_000), first);
        assert_eq!(spawn_volley(&board, side + 400, 20_000), first);
        assert_ne!(first[0].velocity, Vec2i { x: 0, y: 0 });
    }
    let bottom = spawn_volley(&board, 7, 20_000);
    assert_eq!(bottom[0].position, Vec2i { x: -29_000, y: -58_000 });
    assert_eq!(bottom[0].velocity, Vec2i { x: 0, y: 5_000 });
    assert_eq!(spawn_volley(&board, -1, 20_000), bottom);
    assert_eq!(spawn_volley(&board, i32::MIN, 20_000), spawn_volley(&board, 0, 20_000));
    assert_eq!(spawn_volley(&board, i32::MAX, 20_000), bottom);
}

#[test]
fn volley_count_rounds_up_and_skips_the_gap() {
    let count = |width: i32, spacing: i32| {
        spawn_volley(&BulletBoard::new(width, 1, Vec2i::new(0, 0), 0, 0, 0), 0, spacing).len()
    };
    assert_eq!(count(0, 20_000), 0);
    assert_eq!(count(1, 20_000), 1);
    assert_eq!(count(80_000, 20_000), 4);
    assert_eq!(count(80_001, 20_000), 4);
    assert_eq!(count(100_000, 20_000), 4);
    assert_eq!(count(100_001, 20_000), 5);
    assert_eq!(count(155_000, 20_000), 7);
    assert_eq!(count(155_000, 1_000), 154);
}

#[test]
fn attack_direction_cycles_with_period_four() {
    let board = battle_board();
    let mut attack = Attack1 { attack_timer: 0, attack_time: 2_000_000, attack_dir: 0 };
    let mut seen = Vec::new();
    for _ in 0..5 {
        seen.push(attack.attack_dir);
        let bullets = attack_1(&mut attack, &board, 2_000_000);
        assert_eq!(bullets.len(), 7);
    }
    assert_eq!(seen, vec![0, 1, 2, 3, 0]);
}

#[test]
fn attack_fires_only_when_the_timer_runs_out() {
    let board = battle_board();
    let mut attack = Attack1 { attack_timer: 50_000, attack_time: 2_000_000, attack_dir: 2 };
    assert_eq!(attack_1(&mut attack, &board, 15_625).len(), 0);
    assert_eq!(attack.attack_timer, 34_375);
    assert_eq!(attack.attack_dir, 2);
    assert_eq!(attack_1(&mut attack, &board, 15_625).len(), 0);
    assert_eq!(attack_1(&mut attack, &board, 15_625).len(), 0);
    assert_eq!(attack.attack_timer, 3_125);
    let fired = attack_1(&mut attack, &board, 15_625);
    assert_eq!(fired.len(), 7);
    assert_eq!(fired[0].position.x, 155_000);
    assert_eq!(attack.attack_timer, 2_000_000);
    assert_eq!(attack.attack_dir, 3);
}

#[test]
fn attack_direction_out_of_the_cycle_comes_back_into_it() {
    let board = battle_board();
    let mut attack = Attack1 { attack_timer: 0, attack_time: 1, attack_dir: -6 };
    attack_1(&mut attack, &board, 1);
    assert_eq!(attack.attack_dir, 3);
    attack.attack_dir = i32::MAX;
    attack_1(&mut attack, &board, 1);
    assert_eq!(attack.attack_dir, 0);
}

#[test]
fn entering_the_attack_resets_it() {
    let mut board = battle_board();
    let mut manager = DodgingPhaseManager::new();
    let mut attack = Attack1 { attack_timer: 7, attack_time: 9, attack_dir: 3 };
    enter_attack_1(
        &mut board,
        &mut manager,
        &mut attack,
        BoardLayout { width: 200_000, height: 90_000, position: Vec2i::new(0, 10_000) },
    );
    assert_eq!(attack, Attack1 { attack_timer: 2_000_000, attack_time: 2_000_000, attack_dir: 0 });
    assert_eq!(manager.time, 10_000_000);
    assert_eq!(ATTACK_1_DURATION, 10_000_000);
    assert_eq!(ATTACK_1_INTERVAL, 2_000_000);
    assert_eq!(board.target_width, 200_000);
    assert_eq!(board.target_height, 90_000);
    assert_eq!(board.target_position, Vec2i { x: 0, y: 10_000 });
    assert_eq!(board.width, 155_000);
}

#[test]
fn planned_attack_starts_the_dodging_phase() {
    let events = BattleEvents::new();
    let mut progress = Progress { turns: 0 };
    let mut transition = MenuTransition::new();
    let mut board = battle_board();
    let mut decisions = Decisions::new();
    spawn_decision(&mut decisions, 0, 41);
    spawn_decision(&mut decisions, 1, 42);
    spawn_decision(&mut decisions, 0, 43);
    let mut manager = DodgingPhaseManager::new();
    let mut attack = Attack1 { attack_timer: 0, attack_time: 0, attack_dir: 2 };
    let (started, removed) = enter_planned_attack(
        &events,
        &mut progress,
        &mut transition,
        &mut board,
        &mut decisions,
        &mut manager,
        &mut attack,
        layout(),
    );
    assert_eq!(started, events.attacks[0]);
    assert_eq!(removed.left_column, vec![41, 43]);
    assert_eq!(removed.right_column, vec![42]);
    assert!(decisions.menu_entities.left_column.is_empty());
    assert!(decisions.menu_entities.right_column.is_empty());
    assert_eq!(progress.turns, 1);
    assert_eq!(transition.pending, Some(MenuState::Dodging));
    assert_eq!(transition.current, MenuState::Selection);
    assert_eq!(manager.attack, Some(AttackScript::Attack1));
    assert_eq!(manager.exit_attack, None);
    assert_eq!(manager.time, 10_000_000);
    assert_eq!(attack.attack_dir, 0);
}

#[test]
fn planned_attack_records_the_scripts_of_its_turn() {
    let quiet = Attack { enter_attack: None, attack: None, exit_attack: Some(AttackScript::Attack1) };
    let events = BattleEvents { attacks: vec![BattleEvents::new().attacks[0], quiet] };
    let mut progress = Progress { turns: 1 };
    let mut transition = MenuTransition::new();
    let mut board = battle_board();
    let mut decisions = Decisions::new();
    let mut manager = DodgingPhaseManager { time: 7, attack: None, exit_attack: None };
    let mut attack = Attack1 { attack_timer: 3, attack_time: 4, attack_dir: 2 };
    let (started, removed) = enter_planned_attack(
        &events,
        &mut progress,
        &mut transition,
        &mut board,
        &mut decisions,
        &mut manager,
        &mut attack,
        BoardLayout { width: 1, height: 2, position: Vec2i::new(3, 4) },
    );
    assert_eq!(started, quiet);
    assert!(removed.left_column.is_empty() && removed.right_column.is_empty());
    assert_eq!(progress.turns, 2);
    assert_eq!(transition.pending, Some(MenuState::Dodging));
    assert_eq!(
        manager,
        DodgingPhaseManager { time: 7, attack: None, exit_attack: Some(AttackScript::Attack1) }
    );
    assert_eq!(attack, Attack1 { attack_timer: 3, attack_time: 4, attack_dir: 2 });
    assert_eq!(board, battle_board());
}

#[test]
fn dodging_phase_runs_the_script_until_its_time_is_up() {
    let board = battle_board();
    let mut manager = DodgingPhaseManager {
        time: 3_000_000,
        attack: Some(AttackScript::Attack1),
        exit_attack: None,
    };
    let mut attack = Attack1 { attack_timer: 2_000_000, attack_time: 2_000_000, attack_dir: 0 };
    let mut transition = MenuTransition::new();
    let first =
        update_dodging(&mut manager, &mut attack, &board, &mut transition, false, 1_000_000);
    assert!(first.bullets.is_empty() && !first.over);
    assert_eq!(first.exit_attack, None);
    assert_eq!(manager.time, 2_000_000);
    let second =
        update_dodging(&mut manager, &mut attack, &board, &mut transition, false, 1_000_000);
    assert_eq!(second.bullets.len(), 7);
    assert!(!second.over);
    assert_eq!(transition.pending, None);
    let last =
        update_dodging(&mut manager, &mut attack, &board, &mut transition, false, 1_000_000);
    assert!(last.bullets.is_empty() && last.over);
    assert_eq!(last.exit_attack, None);
    assert_eq!(manager, DodgingPhaseManager { time: 0, attack: None, exit_attack: None });
    assert_eq!(transition.pending, Some(MenuState::Selection));
    assert_eq!(attack.attack_dir, 1);
}

#[test]
fn dodging_phase_hands_back_the_exit_script_when_the_time_is_up() {
    let board = battle_board();
    let mut manager = DodgingPhaseManager {
        time: 20,
        attack: None,
        exit_attack: Some(AttackScript::Attack1),
    };
    let mut attack = Attack1 { attack_timer: 0, attack_time: 5, attack_dir: 0 };
    let mut transition = MenuTransition::new();
    let running = update_dodging(&mut manager, &mut attack, &board, &mut transition, false, 10);
    assert!(!running.over);
    assert_eq!(running.exit_attack, None);
    assert_eq!(manager.exit_attack, Some(AttackScript::Attack1));
    let ended = update_dodging(&mut manager, &mut attack, &board, &mut transition, false, 10);
    assert!(ended.over);
    assert_eq!(ended.exit_attack, Some(AttackScript::Attack1));
    assert_eq!(manager, DodgingPhaseManager { time: 0, attack: None, exit_attack: None });
    let after = update_dodging(&mut manager, &mut attack, &board, &mut transition, false, 10);
    assert!(after.over);
    assert_eq!(after.exit_attack, None);
}

#[test]
fn dodging_phase_ends_in_the_opponents_defeat() {
    let board = battle_board();
    let mut manager = DodgingPhaseManager { time: 10, attack: None, exit_attack: None };
    let mut attack = Attack1 { attack_timer: 0, attack_time: 5, attack_dir: 0 };
    let mut transition = MenuTransition::new();
    let ended = update_dodging(&mut manager, &mut attack, &board, &mut transition, true, 10);
    assert!(ended.bullets.is_empty() && ended.over);
    assert_eq!(attack, Attack1 { attack_timer: 0, attack_time: 5, attack_dir: 0 });
    assert_eq!(transition.pending, Some(MenuState::EnemyDeath));
}

#[test]
fn actions_ask_for_their_phase() {
    let mut transition = MenuTransition::new();
    let mut queue = DialogueQueue::new();
    let effect = run_action(MenuAction::Check, &mut transition, &mut queue);
    assert_eq!(effect.transition, None);
    assert_eq!(transition.pending, None);
    let effect = run_action(MenuAction::StartFight, &mut transition, &mut queue);
    assert_eq!(effect.transition, Some(MenuState::Fight));
    assert!(!effect.remove_decisions && !effect.talk);
    assert_eq!(transition.pending, Some(MenuState::Fight));
    let effect = run_action(MenuAction::Item, &mut transition, &mut queue);
    assert_eq!(effect.transition, None);
    assert_eq!(transition.pending, Some(MenuState::Fight));
    assert_eq!(queue, DialogueQueue { advance_attack: false });
    let effect = run_action(MenuAction::Talk, &mut transition, &mut queue);
    assert!(effect.remove_decisions && effect.talk);
    assert_eq!(transition.pending, Some(MenuState::Text));
    assert_eq!(transition.current, MenuState::Selection);
    assert_eq!(queue, DialogueQueue { advance_attack: true });
    run_action(MenuAction::Check, &mut transition, &mut queue);
    assert_eq!(queue, DialogueQueue { advance_attack: true });
}

#[test]
fn dialogue_ends_on_the_action_key_once_it_shows_in_full() {
    let mut text_box = TextBox::new(30);
    text_box.set_text("* Hi".to_string());
    let mut queue = DialogueQueue { advance_attack: true };
    assert!(!update_dialogue(&text_box, &mut queue, true));
    assert!(queue.advance_attack);
    update_text(&mut text_box, 1_000_000);
    assert!(!update_dialogue(&text_box, &mut queue, false));
    assert!(queue.advance_attack);
    assert!(update_dialogue(&text_box, &mut queue, true));
    assert!(!queue.advance_attack);
    assert!(!update_dialogue(&text_box, &mut queue, true));
    assert!(!queue.advance_attack);
}

#[test]
fn strike_leads_to_the_next_attack_or_to_the_defeat() {
    let mut opponent = OpponentHealth { health: 30, max_health: 30 };
    let mut bar = OpponentHealthBarManager { old_health: 0, new_health: 0, damage_display: 0 };
    let mut transition = MenuTransition::new();
    assert!(resolve_strike(&mut opponent, &mut bar, 20, &mut transition));
    assert_eq!(opponent, OpponentHealth { health: 10, max_health: 30 });
    assert_eq!(bar, OpponentHealthBarManager { old_health: 30, new_health: 10, damage_display: 20 });
    assert_eq!(transition.pending, None);
    assert!(!resolve_strike(&mut opponent, &mut bar, 20, &mut transition));
    assert_eq!(opponent, OpponentHealth { health: 0, max_health: 30 });
    assert_eq!(bar, OpponentHealthBarManager { old_health: 10, new_health: 0, damage_display: 20 });
    assert_eq!(transition.pending, Some(MenuState::EnemyDeath));
    assert_eq!(transition.current, MenuState::Selection);
}
