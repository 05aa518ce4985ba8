use encounter::board::BulletBoard;
use encounter::decisions::{spawn_decision, Decisions};
use encounter::fight::{
    fade_ratio, init_fight, update_fight_bar, update_fight_controls, update_visibility, FightBarData,
    FightManager,
};
use encounter::geometry::Vec2i;

fn battle_board() -> BulletBoard {
    BulletBoard::new(155_000, 130_000, Vec2i::new(0, 0), 5_000, 4_000, 4_000)
}

fn data() -> FightBarData {
    FightBarData { fade_time: 500_000, attack_animation: 300_000 }
}

#[test]
fn fight_bar_starts_left_of_the_board() {
    let mut fight = FightManager {
        attack_animation: 1,
        fade_timer: 2,
        strike: true,
        position: 3,
        exit_fight_menu: true,
    };
    let mut decisions = Decisions::new();
    spawn_decision(&mut decisions, 1, 7);
    spawn_decision(&mut decisions, 0, 8);
    spawn_decision(&mut decisions, 1, 9);
    let removed = init_fight(&mut fight, &battle_board(), &data(), &mut decisions);
    assert_eq!(
        fight,
        FightManager {
            attack_animation: 300_000,
            fade_timer: 500_000,
            strike: false,
            position: -82_500,
            exit_fight_menu: false,
        }
    );
    assert_eq!(removed.left_column, vec![8]);
    assert_eq!(removed.right_column, vec![7, 9]);
    assert!(decisions.menu_entities.left_column.is_empty());
    assert!(decisions.menu_entities.right_column.is_empty());
    let again = init_fight(&mut fight, &battle_board(), &data(), &mut decisions);
    assert!(again.left_column.is_empty() && again.right_column.is_empty());
}

#[test]
fn fight_bar_latches_the_strike_at_the_far_edge() {
    let board = battle_board();
    let mut fight = FightManager::new();
    init_fight(&mut fight, &board, &data(), &mut Decisions::new());
    let pixel = update_fight_bar(&mut fight, &board, 5_000);
    assert_eq!(fight.position, -77_500);
    assert_eq!(pixel, -78);
    assert!(!fight.strike);
    let mut ticks = 1;
    while !fight.strike {
        update_fight_bar(&mut fight, &board, 5_000);
        ticks += 1;
        assert!(ticks <= 100);
    }
    assert_eq!(ticks, 33);
    assert_eq!(fight.position, 82_500);
    let pixel = update_fight_bar(&mut fight, &board, 5_000);
    assert!(fight.strike);
    assert_eq!(fight.position, 82_500);
    assert_eq!(pixel, 82);
}

#[test]
fn action_key_latches_the_strike_early() {
    let board = battle_board();
    let mut fight = FightManager::new();
    init_fight(&mut fight, &board, &data(), &mut Decisions::new());
    update_fight_controls(&mut fight, false);
    assert!(!fight.strike);
    update_fight_controls(&mut fight, true);
    assert!(fight.strike);
    update_fight_controls(&mut fight, false);
    assert!(fight.strike);
    update_fight_bar(&mut fight, &board, 5_000);
    assert_eq!(fight.position, -82_500);
}

#[test]
fn next_attack_is_asked_for_exactly_once() {
    let mut fight = FightManager::new();
    init_fight(&mut fight, &battle_board(), &data(), &mut Decisions::new());
    let idle = update_visibility(&mut fight, &data(), 100_000);
    assert!(!idle.advance_attack);
    assert!(idle.timing_bar_visible);
    assert_eq!(idle.fade_ratio, 1000);
    assert_eq!(fight.attack_animation, 300_000);
    fight.strike = true;
    let mut asked = 0;
    let mut ratios = Vec::new();
    for _ in 0..12 {
        let visuals = update_visibility(&mut fight, &data(), 100_000);
        if visuals.advance_attack {
            asked += 1;
        }
        ratios.push(visuals.fade_ratio);
    }
    assert_eq!(asked, 1);
    assert_eq!(ratios, vec![1000, 1000, 800, 600, 400, 200, 0, 0, 0, 0, 0, 0]);
    assert!(fight.exit_fight_menu);
    assert!(!fight.strike);
    assert_eq!(fight.attack_animation, 0);
    assert_eq!(fight.fade_timer, 0);
}

#[test]
fn impact_flash_counts_down_before_the_fade() {
    let mut fight = FightManager::new();
    init_fight(&mut fight, &battle_board(), &data(), &mut Decisions::new());
    fight.strike = true;
    let first = update_visibility(&mut fight, &data(), 100_000);
    assert!(!first.advance_attack && first.timing_bar_visible);
    assert_eq!((fight.attack_animation, fight.fade_timer), (200_000, 500_000));
    update_visibility(&mut fight, &data(), 100_000);
    let third = update_visibility(&mut fight, &data(), 100_000);
    assert!(third.advance_attack && !third.timing_bar_visible);
    assert_eq!((fight.attack_animation, fight.fade_timer), (0, 400_000));
    assert!(fight.exit_fight_menu && fight.strike);
}

#[test]
fn fade_ratio_is_the_part_that_is_left() {
    assert_eq!(fade_ratio(500_000, 500_000), 1000);
    assert_eq!(fade_ratio(250_000, 500_000), 500);
    assert_eq!(fade_ratio(1, 3), 333);
    assert_eq!(fade_ratio(0, 500_000), 0);
    assert_eq!(fade_ratio(7, 0), 0);
    assert_eq!(fade_ratio(u32::MAX, 1), 1000);
    assert_eq!(fade_ratio(u32::MAX - 1, u32::MAX), 999);
}
