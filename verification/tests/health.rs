use encounter::fight::FightManager;
use encounter::geometry::Vec2i;
use encounter::health::{update_damage, update_flash_animation, Damage, PlayerStats};
use encounter::board::BulletBoard;
use encounter::opponent::{
    strike_opponent, update_enemy_healthbar, update_opponent_position, BarVisibility, HealthBar,
    OpponentData, OpponentHealth, OpponentHealthBarManager,
};
use encounter::physics::PhysicsComponent;

fn body(x: i32, y: i32, half: i32) -> PhysicsComponent {
    PhysicsComponent::new_full(Vec2i::new(x, y), Vec2i::zero(), Vec2i::splat(half), Vec2i::zero())
}

fn stats() -> PlayerStats {
    PlayerStats { health: 20, max_health: 20, invincibility: 0, flash_animation: 0, interval: 100_000 }
}

#[test]
fn one_hit_per_tick() {
    let mut s = stats();
    let player = body(0, 0, 8_000);
    let hazards = vec![
        (body(5_000, 0, 6_000), Damage { damage: 5 }),
        (body(-5_000, 0, 6_000), Damage { damage: 5 }),
    ];
    let hit = update_damage(&mut s, &player, &hazards, 1_000_000);
    assert_eq!(hit, Some(0));
    assert_eq!(s.health, 15);
    assert_eq!(s.invincibility, 1_000_000);
    let again = update_damage(&mut s, &player, &hazards, 1_000_000);
    assert_eq!(again, None);
    assert_eq!(s.health, 15);
}

#[test]
fn invincibility_suppresses_damage() {
    let mut s = stats();
    s.invincibility = 1;
    let player = body(0, 0, 8_000);
    let hazards = vec![(body(0, 0, 6_000), Damage { damage: 5 })];
    assert_eq!(update_damage(&mut s, &player, &hazards, 1_000_000), None);
    assert_eq!(s, PlayerStats { invincibility: 1, ..stats() });
}

#[test]
fn first_touching_hazard_deals_the_damage() {
    let mut s = stats();
    let player = body(0, 0, 8_000);
    let hazards = vec![
        (body(100_000, 0, 6_000), Damage { damage: 1 }),
        (body(14_001, 0, 6_000), Damage { damage: 2 }),
        (body(14_000, 0, 6_000), Damage { damage: 3 }),
        (body(0, 0, 6_000), Damage { damage: 4 }),
    ];
    assert_eq!(update_damage(&mut s, &player, &hazards, 7), Some(2));
    assert_eq!(s.health, 17);
    assert_eq!(s.invincibility, 7);
}

#[test]
fn no_touch_no_damage() {
    let mut s = stats();
    let player = body(0, 0, 8_000);
    let hazards = vec![(body(100_000, 0, 6_000), Damage { damage: 1 })];
    assert_eq!(update_damage(&mut s, &player, &hazards, 7), None);
    assert_eq!(update_damage(&mut s, &player, &Vec::new(), 7), None);
    assert_eq!(s, stats());
}

#[test]
fn health_stays_between_nothing_and_the_maximum() {
    let mut s = stats();
    s.apply_damage(50, 0);
    assert_eq!(s.health, 0);
    s.apply_damage(-5, 0);
    assert_eq!(s.health, 5);
    s.apply_damage(-500, 0);
    assert_eq!(s.health, 20);
    s.apply_damage(i32::MIN, 0);
    assert_eq!(s.health, 20);
    s.apply_damage(i32::MAX, 3);
    assert_eq!(s.health, 0);
    assert_eq!(s.invincibility, 3);
    assert_eq!(PlayerStats::new(-4, 9).max_health, 0);
    assert_eq!(PlayerStats::new(20, 9), PlayerStats { interval: 9, ..stats() });
}

#[test]
fn sprite_flashes_while_invincible() {
    let mut s = stats();
    s.invincibility = 250_000;
    let mut faint = false;
    faint = update_flash_animation(&mut s, faint, 50_000);
    assert!(faint);
    assert_eq!(s.invincibility, 200_000);
    assert_eq!(s.flash_animation, 100_000);
    faint = update_flash_animation(&mut s, faint, 50_000);
    assert!(faint);
    assert_eq!(s.flash_animation, 50_000);
    faint = update_flash_animation(&mut s, faint, 50_000);
    assert!(!faint);
    assert_eq!(s.flash_animation, 100_000);
    faint = update_flash_animation(&mut s, faint, 50_000);
    assert!(!faint);
    assert_eq!(s.invincibility, 50_000);
    faint = update_flash_animation(&mut s, true, 50_000);
    assert!(!faint);
    assert_eq!(s.invincibility, 0);
    assert_eq!(s.flash_animation, 50_000);
    assert_eq!(s.health, 20);
    assert!(!update_flash_animation(&mut s, true, 50_000));
}

#[test]
fn strike_lowers_the_opponents_health_at_once() {
    let mut opponent = OpponentHealth::new(&OpponentData { health: 30, height: 100_000 });
    let mut bar = OpponentHealthBarManager { old_health: 0, new_health: 0, damage_display: 0 };
    assert!(!strike_opponent(&mut opponent, &mut bar, 12));
    assert_eq!(opponent.health, 18);
    assert_eq!(bar, OpponentHealthBarManager { old_health: 30, new_health: 18, damage_display: 12 });
    assert!(strike_opponent(&mut opponent, &mut bar, 40));
    assert_eq!(opponent.health, 0);
    assert_eq!(bar.old_health, 18);
    assert_eq!(bar.new_health, 0);
    assert!(!strike_opponent(&mut opponent, &mut bar, -100));
    assert_eq!(opponent.health, 30);
}

#[test]
fn opponent_stands_above_the_board() {
    let board = BulletBoard::new(155_000, 130_000, Vec2i::new(7_000, 0), 5_000, 0, 0);
    assert_eq!(update_opponent_position(&board, 100_000), Vec2i { x: 0, y: 130_000 });
}

#[test]
fn health_bar_goes_from_old_to_new() {
    let manager = OpponentHealthBarManager { old_health: 100, new_health: 80, damage_display: 20 };
    let data = OpponentData { health: 100, height: 100_000 };
    let start = HealthBar {
        position: Vec2i::zero(),
        health: 0,
        max_health: 0,
        custom_size: Vec2i::new(101_000, 21_000),
    };
    let mut fight = FightManager::new();
    let mut bar = start;
    assert_eq!(
        update_enemy_healthbar(&fight, &manager, &data, Vec2i::new(0, 130_000), &mut bar),
        BarVisibility::Hidden
    );
    assert_eq!(bar, start);
    fight.strike = true;
    fight.attack_animation = 1_500_000;
    assert_eq!(
        update_enemy_healthbar(&fight, &manager, &data, Vec2i::new(0, 130_000), &mut bar),
        BarVisibility::Unchanged
    );
    assert_eq!(bar, start);
    let shown = |animation: u32| {
        let mut b = start;
        let f = FightManager { strike: true, attack_animation: animation, ..FightManager::new() };
        assert_eq!(
            update_enemy_healthbar(&f, &manager, &data, Vec2i::new(0, 130_000), &mut b),
            BarVisibility::Visible
        );
        assert_eq!(b.max_health, 100);
        assert_eq!(b.position, Vec2i { x: 0, y: 190_500 });
        b.health
    };
    assert_eq!(shown(1_000_000), 100);
    assert_eq!(shown(500_000), 90);
    assert_eq!(shown(25_000), 81);
    assert_eq!(shown(24_999), 80);
    assert_eq!(shown(0), 80);
}

#[test]
fn health_bar_rises_after_healing() {
    let manager = OpponentHealthBarManager { old_health: 10, new_health: 30, damage_display: -20 };
    let data = OpponentData { health: 30, height: 0 };
    let mut bar = HealthBar {
        position: Vec2i::zero(),
        health: 0,
        max_health: 0,
        custom_size: Vec2i::zero(),
    };
    let fight = FightManager { strike: true, attack_animation: 250_000, ..FightManager::new() };
    update_enemy_healthbar(&fight, &manager, &data, Vec2i::zero(), &mut bar);
    assert_eq!(bar.health, 25);
}
