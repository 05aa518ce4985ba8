use std::collections::HashMap;

use encounter::board::BulletBoard;
use encounter::decisions::{
    init_decision_menu, spawn_decision, update_decision_spawning, update_decisions, CursorKeys,
    Decision, DecisionMenu, Decisions, MenuAction, Selected,
};
use encounter::geometry::Vec2i;
use encounter::menu::{MenuState, MenuTransition, PhaseChange};
use encounter::selection::{init_bullet_board_size, spawn_buttons, MenuOption, MenuSelect};

fn column(n: usize) -> Vec<Decision> {
    (0..n).map(|i| Decision::new(format!("item {}", i), MenuAction::Item)).collect()
}

fn with_columns(left: usize, right: usize) -> Decisions {
    let mut decisions = Decisions::with_menus(HashMap::new());
    decisions.enter_menu(DecisionMenu { left_column: column(left), right_column: column(right) });
    decisions
}

fn keys(left: bool, right: bool, up: bool, down: bool) -> CursorKeys {
    CursorKeys { left, right, up, down }
}

#[test]
fn vertical_cycle_returns_after_a_full_round() {
    for n in 1..6usize {
        for delta in [-7, -1, 0, 1, 2, 5] {
            for start in 0..n {
                let mut decisions = with_columns(n, 0);
                decisions.selection = start;
                for _ in 0..n {
                    decisions.vertical_cycle(delta);
                    assert!(decisions.selection < n);
                }
                assert_eq!(decisions.selection, start);
            }
        }
    }
}

#[test]
fn vertical_cycle_wraps_both_ways() {
    let mut decisions = with_columns(3, 0);
    decisions.vertical_cycle(-1);
    assert_eq!(decisions.selection, 2);
    decisions.vertical_cycle(1);
    assert_eq!(decisions.selection, 0);
    decisions.vertical_cycle(5);
    assert_eq!(decisions.selection, 2);
    decisions.vertical_cycle(i32::MIN);
    assert_eq!(decisions.selection, 0);
    decisions.vertical_cycle(i32::MAX);
    assert_eq!(decisions.selection, 1);
}

#[test]
fn vertical_cycle_uses_the_column_of_the_cursor() {
    let mut decisions = with_columns(1, 4);
    decisions.side = 1;
    decisions.vertical_cycle(3);
    assert_eq!(decisions.selection, 3);
    decisions.vertical_cycle(1);
    assert_eq!(decisions.selection, 0);
}

#[test]
fn cycling_without_a_menu_or_in_an_empty_column() {
    let mut none = Decisions::with_menus(HashMap::new());
    none.selection = 5;
    none.vertical_cycle(1);
    assert_eq!(none.selection, 5);
    none.horizontal_cycle(1);
    assert_eq!((none.side, none.selection), (1, 5));
    let mut empty = with_columns(0, 0);
    empty.selection = 5;
    empty.vertical_cycle(1);
    assert_eq!(empty.selection, 0);
}

#[test]
fn horizontal_cycle_switches_columns_and_revalidates() {
    let mut decisions = with_columns(4, 2);
    decisions.selection = 3;
    decisions.horizontal_cycle(1);
    assert_eq!((decisions.side, decisions.selection), (1, 1));
    decisions.horizontal_cycle(1);
    assert_eq!((decisions.side, decisions.selection), (0, 1));
    decisions.horizontal_cycle(-1);
    assert_eq!(decisions.side, 1);
    decisions.horizontal_cycle(-3);
    assert_eq!(decisions.side, 0);
    decisions.horizontal_cycle(0);
    assert_eq!(decisions.side, 0);
}

#[test]
fn keys_move_the_cursor() {
    let mut decisions = with_columns(3, 3);
    update_decisions(&mut decisions, &keys(false, false, false, true));
    assert_eq!((decisions.side, decisions.selection), (0, 1));
    update_decisions(&mut decisions, &keys(false, true, false, true));
    assert_eq!((decisions.side, decisions.selection), (1, 2));
    update_decisions(&mut decisions, &keys(true, false, true, false));
    assert_eq!((decisions.side, decisions.selection), (0, 1));
    update_decisions(&mut decisions, &keys(true, true, true, true));
    assert_eq!((decisions.side, decisions.selection), (0, 1));
    update_decisions(&mut decisions, &keys(false, false, false, false));
    assert_eq!((decisions.side, decisions.selection), (0, 1));
}

#[test]
fn enter_menu_resets_the_cursor() {
    let mut decisions = with_columns(3, 3);
    decisions.selection = 2;
    decisions.side = 1;
    decisions.switch_menu = false;
    spawn_decision(&mut decisions, 0, 11);
    spawn_decision(&mut decisions, 1, 12);
    decisions.enter_menu(DecisionMenu { left_column: column(1), right_column: column(0) });
    assert_eq!((decisions.side, decisions.selection), (0, 0));
    assert!(decisions.switch_menu);
    assert!(decisions.menu_entities.left_column.is_empty());
    assert!(decisions.menu_entities.right_column.is_empty());
    assert_eq!(decisions.decision_menu.as_ref().map(|m| m.left_column.len()), Some(1));
}

#[test]
fn standard_menus_of_the_encounter() {
    let decisions = Decisions::new();
    assert_eq!(decisions.menu.len(), 4);
    assert!(decisions.decision_menu.is_none());
    let fight = &decisions.menu[&MenuOption::Fight.key()];
    assert_eq!(fight.left_column.len(), 1);
    assert_eq!(fight.left_column[0].display, "Biped Potato");
    assert_eq!(fight.left_column[0].system, Some(MenuAction::StartFight));
    assert!(fight.right_column.is_empty());
    let act = &decisions.menu[&MenuOption::Act.key()];
    assert_eq!(act.left_column[0].display, "Biped Potato");
    assert_eq!(act.left_column[0].system, None);
    let sub = act.left_column[0].submenu.as_ref().map(|m| {
        (m.left_column[0].display.clone(), m.right_column[0].display.clone())
    });
    assert_eq!(sub, Some(("Check".to_string(), "Talk".to_string())));
    let item = &decisions.menu[&MenuOption::Item.key()];
    assert_eq!(item.left_column[0].display, "Monster Candy");
    let mercy = &decisions.menu[&MenuOption::Mercy.key()];
    let names: Vec<&str> = mercy.left_column.iter().map(|d| d.display.as_str()).collect();
    assert_eq!(names, vec!["Spare", "Flee"]);
}

#[test]
fn selecting_opens_the_submenu_and_then_runs_the_action() {
    let mut decisions = Decisions::new();
    let mut select = MenuSelect::new();
    select.cycle();
    assert_eq!(select.get_option(), Some(MenuOption::Act));
    assert!(init_decision_menu(&select, &mut decisions));
    assert!(decisions.switch_menu);
    assert!(matches!(decisions.select(), Selected::Opened));
    let (left, right) = decisions
        .decision_menu
        .as_ref()
        .map(|m| (m.left_column[0].display.clone(), m.right_column[0].display.clone()))
        .unwrap_or_default();
    assert_eq!((left.as_str(), right.as_str()), ("Check", "Talk"));
    assert_eq!(decisions.menu.len(), 4);
    spawn_decision(&mut decisions, 0, 41);
    spawn_decision(&mut decisions, 1, 42);
    decisions.horizontal_cycle(1);
    match decisions.select() {
        Selected::Action { action, removed } => {
            assert_eq!(action, MenuAction::Talk);
            assert_eq!(removed.left_column, vec![41]);
            assert_eq!(removed.right_column, vec![42]);
        }
        other => panic!("{:?}", other),
    }
    assert!(decisions.menu_entities.left_column.is_empty());
    assert!(decisions.menu_entities.right_column.is_empty());
}

#[test]
fn selecting_nothing_changes_nothing() {
    let mut none = Decisions::with_menus(HashMap::new());
    assert!(matches!(none.select(), Selected::Nothing));
    let mut decisions = with_columns(2, 0);
    decisions.side = 1;
    assert!(matches!(decisions.select(), Selected::Nothing));
    decisions.side = 0;
    decisions.selection = 2;
    assert!(matches!(decisions.select(), Selected::Nothing));
    let mut dead = Decisions::with_menus(HashMap::new());
    dead.enter_menu(DecisionMenu {
        left_column: vec![Decision::new_with_menu("dead".to_string(), None)],
        right_column: Vec::new(),
    });
    assert!(matches!(dead.select(), Selected::Nothing));
}

#[test]
fn decision_menu_needs_a_menu_for_the_button() {
    let select = MenuSelect::new();
    let mut empty = Decisions::with_menus(HashMap::new());
    assert!(!init_decision_menu(&select, &mut empty));
    assert!(empty.decision_menu.is_none());
    let mut off = MenuSelect::new();
    off.selection = 9;
    let mut decisions = Decisions::new();
    assert!(!init_decision_menu(&off, &mut decisions));
    assert!(decisions.decision_menu.is_none());
}

#[test]
fn rows_are_laid_out_below_each_other() {
    let mut board = BulletBoard::new(1, 1, Vec2i::new(0, 0), 5_000, 0, 0);
    init_bullet_board_size(&mut board);
    let mut decisions = Decisions::new();
    let mut select = MenuSelect::new();
    select.selection = 3;
    assert!(init_decision_menu(&select, &mut decisions));
    let rows = update_decision_spawning(&mut decisions, &board);
    let (left, right) = rows.unwrap_or_default();
    assert!(right.is_empty());
    assert_eq!(left.len(), 2);
    assert_eq!(left[0].label, "* Spare");
    assert_eq!(left[1].label, "* Flee");
    assert_eq!(left[0].position, Vec2i { x: 32_100, y: -96_000 });
    assert_eq!(left[1].position, Vec2i { x: 32_100, y: -128_000 });
    assert_eq!(left[0].side, 0);
    assert!(!decisions.switch_menu);
    assert!(update_decision_spawning(&mut decisions, &board).is_none());
    let mut two = with_columns(1, 2);
    let (_, right) = update_decision_spawning(&mut two, &board).unwrap_or_default();
    assert_eq!(right[1].position, Vec2i { x: 288_100, y: -128_000 });
    assert_eq!(right[1].side, 1);
    assert_eq!(right[1].label, "* item 1");
}

#[test]
fn duplicate_copies_the_whole_menu() {
    let decisions = Decisions::new();
    let act = &decisions.menu[&MenuOption::Act.key()];
    let copy = act.duplicate();
    assert_eq!(format!("{:?}", copy), format!("{:?}", act));
    let item = Decision::new("x".to_string(), MenuAction::Check).duplicate();
    assert_eq!(item.display, "x");
    assert_eq!(item.system, Some(MenuAction::Check));
    assert!(item.submenu.is_none());
    assert!(DecisionMenu::new().left_column.is_empty());
}

#[test]
fn top_level_selection_cycles_through_the_buttons() {
    let mut select = MenuSelect::new();
    let mut seen = Vec::new();
    for _ in 0..5 {
        seen.push(select.get_option());
        select.cycle();
    }
    assert_eq!(
        seen,
        vec![
            Some(MenuOption::Fight),
            Some(MenuOption::Act),
            Some(MenuOption::Item),
            Some(MenuOption::Mercy),
            Some(MenuOption::Fight),
        ]
    );
    let mut empty = MenuSelect { selection: 3, selections: Vec::new() };
    assert_eq!(empty.get_option(), None);
    empty.cycle();
    assert_eq!(empty.selection, 0);
}

#[test]
fn buttons_stand_in_a_row_below_the_board() {
    let mut board = BulletBoard::new(1, 1, Vec2i::new(5, 5), 5_000, 0, 0);
    init_bullet_board_size(&mut board);
    assert_eq!((board.width, board.height), (565_000, 130_000));
    assert_eq!(board.position, Vec2i { x: 0, y: -80_000 });
    assert_eq!(board.target_position, Vec2i { x: 0, y: -80_000 });
    let buttons = spawn_buttons(&MenuSelect::new(), &board);
    let xs: Vec<i32> = buttons.iter().map(|b| b.0.x).collect();
    assert_eq!(xs, vec![-233_000, -78_000, 78_000, 233_000]);
    assert!(buttons.iter().all(|b| b.0.y == -213_000));
    assert_eq!(buttons[2].1, MenuOption::Item);
}

#[test]
fn buttons_lead_to_their_phase() {
    assert_eq!(MenuState::from_option(MenuOption::Fight), MenuState::Fight);
    assert_eq!(MenuState::from_option(MenuOption::Act), MenuState::Decision);
    assert_eq!(MenuState::from_option(MenuOption::Item), MenuState::Decision);
    assert_eq!(MenuState::from_option(MenuOption::Mercy), MenuState::Decision);
}

#[test]
fn last_requested_phase_wins() {
    let mut transition = MenuTransition::new();
    assert_eq!(transition.current_phase(), MenuState::Selection);
    assert_eq!(transition.apply_pending(), None);
    transition.request_transition(MenuState::Text);
    transition.request_transition(MenuState::Fight);
    assert_eq!(transition.current_phase(), MenuState::Selection);
    assert_eq!(
        transition.apply_pending(),
        Some(PhaseChange { exited: MenuState::Selection, entered: MenuState::Fight })
    );
    assert_eq!(transition.current_phase(), MenuState::Fight);
    assert_eq!(transition.apply_pending(), None);
    assert_eq!(transition.current_phase(), MenuState::Fight);
}
