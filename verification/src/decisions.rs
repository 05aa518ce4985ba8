//! The decision menus: two columns of items, each of which runs an action or
//! opens a menu of its own.

use std::collections::HashMap;
use vstd::prelude::*;
use vstd::string::StringExecFns;
use crate::board::BulletBoard;
use crate::fixed::{lemma_quotient_is, saturate, saturated};
use crate::geometry::Vec2i;
use crate::selection::{MenuOption, MenuSelect};

verus! {

/// What a terminal item of a menu does.
#[derive(Clone, Copy, Debug, PartialEq, Eq, Structural)]
pub enum MenuAction {
    StartFight,
    Check,
    Talk,
    Item,
}

/// An item of a decision menu.
#[derive(Debug)]
pub struct Decision {
    pub display: String,
    /// The action that the item runs.
    pub system: Option<MenuAction>,
    /// The menu that the item opens.
    pub submenu: Option<DecisionMenu>,
}

/// A decision menu: a left and a right column of items.
#[derive(Debug)]
pub struct DecisionMenu {
    pub left_column: Vec<Decision>,
    pub right_column: Vec<Decision>,
}

/// What an item is, whatever holds it in memory.
pub struct DecisionModel {
    pub display: Seq<char>,
    pub system: Option<MenuAction>,
    pub submenu: Option<MenuModel>,
}

/// What a menu is, whatever holds it in memory.
pub struct MenuModel {
    pub left_column: Seq<DecisionModel>,
    pub right_column: Seq<DecisionModel>,
}

impl Decision {
    pub open spec fn model(&self) -> DecisionModel
        decreases self,
    {
        DecisionModel {
            display: self.display@,
            system: self.system,
            submenu: match self.submenu {
                Some(menu) => Some(menu.model()),
                None => None,
            },
        }
    }

    /// A copy of the item, with all that it opens.
    pub fn duplicate(&self) -> (copy: Decision)
        ensures
            copy.model() == self.model(),
        decreases self,
    {
        let submenu: Option<DecisionMenu> = match &self.submenu {
            Some(menu) => Some(menu.duplicate()),
            None => None,
        };
        Decision { display: self.display.clone(), system: self.system, submenu }
    }
}

impl DecisionMenu {
    pub open spec fn model(&self) -> MenuModel
        decreases self,
    {
        MenuModel {
            left_column: Seq::new(
                self.left_column@.len(),
                |i: int|
                    if 0 <= i < self.left_column@.len() {
                        self.left_column@[i].model()
                    } else {
                        arbitrary()
                    },
            ),
            right_column: Seq::new(
                self.right_column@.len(),
                |i: int|
                    if 0 <= i < self.right_column@.len() {
                        self.right_column@[i].model()
                    } else {
                        arbitrary()
                    },
            ),
        }
    }

    /// A copy of the menu, with all that its items open.
    pub fn duplicate(&self) -> (copy: DecisionMenu)
        ensures
            copy.model() == self.model(),
        decreases self,
    {
        let mut left: Vec<Decision> = Vec::new();
        let mut i: usize = 0;
        while i < self.left_column.len()
            invariant
                i <= self.left_column@.len(),
                left@.len() == i,
                forall|j: int| 0 <= j < i ==> (#[trigger] left@[j]).model() == self.left_column@[j].model(),
            decreases self.left_column@.len() - i,
        {
            left.push(self.left_column[i].duplicate());
            i = i + 1;
        }
        let mut right: Vec<Decision> = Vec::new();
        let mut k: usize = 0;
        while k < self.right_column.len()
            invariant
                k <= self.right_column@.len(),
                right@.len() == k,
                forall|j: int|
                    0 <= j < k ==> (#[trigger] right@[j]).model() == self.right_column@[j].model(),
            decreases self.right_column@.len() - k,
        {
            right.push(self.right_column[k].duplicate());
            k = k + 1;
        }
        let copy = DecisionMenu { left_column: left, right_column: right };
        assert(copy.model().left_column =~= self.model().left_column);
        assert(copy.model().right_column =~= self.model().right_column);
        copy
    }
}

impl Decision {
    /// An item that runs an action.
    pub fn new(display: String, system: MenuAction) -> (decision: Decision)
        ensures
            decision.model() == (DecisionModel {
                display: display@,
                system: Some(system),
                submenu: None,
            }),
    {
        Decision { display, system: Some(system), submenu: None }
    }

    /// An item that opens a menu.
    pub fn new_with_menu(display: String, submenu: Option<DecisionMenu>) -> (decision: Decision)
        ensures
            decision.display@ == display@,
            decision.system is None,
            decision.submenu == submenu,
    {
        Decision { display, system: None, submenu }
    }
}

impl DecisionMenu {
    /// A menu without items.
    pub fn new() -> (menu: DecisionMenu)
        ensures
            menu.left_column@.len() == 0,
            menu.right_column@.len() == 0,
            menu.model() == (MenuModel { left_column: Seq::empty(), right_column: Seq::empty() }),
    {
        let menu = DecisionMenu { left_column: Vec::new(), right_column: Vec::new() };
        assert(menu.model().left_column =~= Seq::empty());
        assert(menu.model().right_column =~= Seq::empty());
        menu
    }

    /// The number of items in the column on the given side: the right column
    /// for side 1, the left column for every other side.
    pub open spec fn column_len(&self, side: int) -> int {
        if side == 1 {
            self.right_column@.len() as int
        } else {
            self.left_column@.len() as int
        }
    }
}

/// The handles of the rows that are on screen, by column.
#[derive(Debug)]
pub struct DecisionEntities {
    pub left_column: Vec<u64>,
    pub right_column: Vec<u64>,
}

/// The decision menus of an encounter and the cursor in the active one.
#[derive(Debug)]
pub struct Decisions {
    /// The menu that each button of the top-level menu opens, by the
    /// button's key.
    pub menu: HashMap<u64, DecisionMenu>,
    /// The menu that is active.
    pub decision_menu: Option<DecisionMenu>,
    pub menu_entities: DecisionEntities,
    /// Set when the rows on screen are out of date.
    pub switch_menu: bool,
    /// The place of the cursor in its column.
    pub selection: usize,
    /// The column of the cursor: 0 left, 1 right.
    pub side: usize,
}

/// What selecting the item under the cursor has done.
#[derive(Debug)]
pub enum Selected {
    /// There is no item under the cursor, or the item does nothing.
    Nothing,
    /// The item's menu is now the active one.
    Opened,
    /// The item's action is to be run. The rows that were on screen have been
    /// taken off the books and are handed over to be removed.
    Action { action: MenuAction, removed: DecisionEntities },
}

/// The keys pressed on this frame that move the cursor.
#[derive(Clone, Copy, Debug, PartialEq, Eq, Structural)]
pub struct CursorKeys {
    pub left: bool,
    pub right: bool,
    pub up: bool,
    pub down: bool,
}

/// The place `delta` steps after `selection` in a column of `len` places,
/// going round in both directions. In an empty column it is the first place.
pub open spec fn cycled(selection: int, delta: int, len: int) -> int {
    if len <= 0 {
        0
    } else {
        (selection + delta) % len
    }
}

/// The place reached from `selection` by `times` moves of `delta` steps each.
pub open spec fn cycled_times(selection: int, delta: int, len: int, times: nat) -> int
    decreases times,
{
    if times == 0 {
        selection
    } else {
        cycled(cycled_times(selection, delta, len, (times - 1) as nat), delta, len)
    }
}

/// A move of the cursor ends at a place of the column.
pub proof fn lemma_cycled_in_column(selection: int, delta: int, len: int)
    requires
        len > 0,
    ensures
        0 <= cycled(selection, delta, len) < len,
{
    vstd::arithmetic::div_mod::lemma_mod_bound(selection + delta, len);
}

/// Any number of moves of the same step is one move of the steps together.
pub proof fn lemma_cycled_times(selection: int, delta: int, len: int, times: nat)
    requires
        len > 0,
        0 <= selection < len,
    ensures
        cycled_times(selection, delta, len, times) == (selection + times * delta) % len,
    decreases times,
{
    if times == 0 {
        assert(times * delta == 0) by (nonlinear_arith)
            requires
                times == 0,
        ;
        vstd::arithmetic::div_mod::lemma_small_mod(selection as nat, len as nat);
    } else {
        let before = cycled_times(selection, delta, len, (times - 1) as nat);
        lemma_cycled_times(selection, delta, len, (times - 1) as nat);
        let a = selection + (times - 1) * delta;
        assert(a + delta == selection + times * delta) by (nonlinear_arith)
            requires
                a == selection + (times - 1) * delta,
        ;
        vstd::arithmetic::div_mod::lemma_add_mod_noop(a, delta, len);
        vstd::arithmetic::div_mod::lemma_add_mod_noop(a % len, delta, len);
        vstd::arithmetic::div_mod::lemma_mod_twice(a, len);
    }
}

/// In a column of `len` places, `len` moves of the same step bring the
/// cursor back to where it was.
pub proof fn lemma_cycle_returns(selection: int, delta: int, len: int)
    requires
        len > 0,
        0 <= selection < len,
    ensures
        cycled_times(selection, delta, len, len as nat) == selection,
{
    lemma_cycled_times(selection, delta, len, len as nat);
    assert(len * delta == delta * len) by (nonlinear_arith);
    vstd::arithmetic::div_mod::lemma_mod_multiples_vanish(delta, selection, len);
    vstd::arithmetic::div_mod::lemma_small_mod(selection as nat, len as nat);
}

fn cycle_place(selection: usize, delta: i32, len: usize) -> (place: usize)
    ensures
        place == cycled(selection as int, delta as int, len as int),
        len > 0 ==> place < len,
{
    if len == 0 {
        return 0;
    }
    let n: i128 = len as i128;
    let target: i128 = selection as i128 + delta as i128;
    proof {
        vstd::arithmetic::div_mod::lemma_mod_bound(target as int, n as int);
    }
    if target >= 0 {
        (target % n) as usize
    } else {
        let back: i128 = (-target) % n;
        proof {
            let b = (-target) as int;
            let q = b / (n as int);
            vstd::arithmetic::div_mod::lemma_fundamental_div_mod(b, n as int);
            vstd::arithmetic::div_mod::lemma_mod_bound(b, n as int);
            assert(b == q * n + back) by (nonlinear_arith)
                requires
                    b == n * q + back,
            ;
            assert((-q) * n == -(q * n)) by (nonlinear_arith);
            assert((-q - 1) * n == -(q * n) - n) by (nonlinear_arith);
            if back == 0 {
                lemma_quotient_is(target as int, n as int, -q, 0);
            } else {
                lemma_quotient_is(target as int, n as int, -q - 1, n - back);
            }
        }
        if back == 0 {
            0
        } else {
            (n - back) as usize
        }
    }
}

impl Decisions {
    /// The number of items in the column of the cursor; nothing without an
    /// active menu.
    pub open spec fn column_len(&self) -> int {
        match self.decision_menu {
            Some(menu) => menu.column_len(self.side as int),
            None => 0,
        }
    }

    /// The cursor is in one of the two columns, and on an item where its
    /// column has any.
    pub open spec fn wf(&self) -> bool {
        &&& self.side <= 1
        &&& self.column_len() > 0 ==> self.selection < self.column_len()
    }

    /// The decisions with the given menus, none of them active.
    pub fn with_menus(menu: HashMap<u64, DecisionMenu>) -> (decisions: Decisions)
        ensures
            decisions.menu == menu,
            decisions.decision_menu is None,
            decisions.menu_entities.left_column@.len() == 0,
            decisions.menu_entities.right_column@.len() == 0,
            !decisions.switch_menu,
            decisions.selection == 0,
            decisions.side == 0,
            decisions.wf(),
    {
        Decisions {
            menu,
            decision_menu: None,
            menu_entities: DecisionEntities { left_column: Vec::new(), right_column: Vec::new() },
            switch_menu: false,
            selection: 0,
            side: 0,
        }
    }

    /// Puts the cursor on the first item of the left column and forgets the
    /// rows that were on screen.
    pub fn reset_selections(&mut self)
        ensures
            final(self).selection == 0,
            final(self).side == 0,
            final(self).menu_entities.left_column@.len() == 0,
            final(self).menu_entities.right_column@.len() == 0,
            final(self).menu == old(self).menu,
            final(self).decision_menu == old(self).decision_menu,
            final(self).switch_menu == old(self).switch_menu,
    {
        self.selection = 0;
        self.side = 0;
        self.menu_entities.left_column.clear();
        self.menu_entities.right_column.clear();
    }

    /// Makes `menu` the active menu: the cursor goes to the first item of the
    /// left column, the rows that were on screen are forgotten, and new rows
    /// are asked for.
    pub fn enter_menu(&mut self, menu: DecisionMenu)
        ensures
            final(self).decision_menu == Some(menu),
            final(self).switch_menu,
            final(self).selection == 0,
            final(self).side == 0,
            final(self).menu_entities.left_column@.len() == 0,
            final(self).menu_entities.right_column@.len() == 0,
            final(self).menu == old(self).menu,
            final(self).wf(),
    {
        self.decision_menu = Some(menu);
        self.switch_menu = true;
        self.reset_selections();
    }

    /// Moves the cursor by `i` places in its column, going round in both
    /// directions. Without an active menu nothing moves.
    pub fn vertical_cycle(&mut self, i: i32)
        ensures
            final(self).selection == (if old(self).decision_menu is Some {
                cycled(old(self).selection as int, i as int, old(self).column_len())
            } else {
                old(self).selection as int
            }),
            final(self).side == old(self).side,
            final(self).decision_menu == old(self).decision_menu,
            final(self).menu == old(self).menu,
            final(self).menu_entities == old(self).menu_entities,
            final(self).switch_menu == old(self).switch_menu,
            old(self).side <= 1 ==> final(self).wf(),
    {
        let len: usize = match &self.decision_menu {
            None => {
                return ;
            },
            Some(menu) => if self.side == 1 {
                menu.right_column.len()
            } else {
                menu.left_column.len()
            },
        };
        self.selection = cycle_place(self.selection, i, len);
    }

    /// Moves the cursor by `i` columns, going round in both directions, and
    /// puts it on an item of the column that it comes to.
    pub fn horizontal_cycle(&mut self, i: i32)
        ensures
            final(self).side == cycled(old(self).side as int, i as int, 2),
            final(self).side <= 1,
            final(self).selection == (match old(self).decision_menu {
                Some(menu) => cycled(
                    old(self).selection as int,
                    0,
                    menu.column_len(final(self).side as int),
                ),
                None => old(self).selection as int,
            }),
            final(self).decision_menu == old(self).decision_menu,
            final(self).menu == old(self).menu,
            final(self).menu_entities == old(self).menu_entities,
            final(self).switch_menu == old(self).switch_menu,
            final(self).wf(),
    {
        self.side = cycle_place(self.side, i, 2);
        self.vertical_cycle(0);
    }

    /// These are the decisions `before` with the rows that were on screen
    /// taken off the books, and nothing else changed.
    pub open spec fn is_without_rows(self, before: Decisions) -> bool {
        &&& self.menu_entities.left_column@.len() == 0
        &&& self.menu_entities.right_column@.len() == 0
        &&& self.menu == before.menu
        &&& self.decision_menu == before.decision_menu
        &&& self.switch_menu == before.switch_menu
        &&& self.selection == before.selection
        &&& self.side == before.side
    }

    /// Takes the rows that are on screen off the books and hands them over to
    /// be removed.
    pub fn remove_decisions(&mut self) -> (removed: DecisionEntities)
        ensures
            removed == old(self).menu_entities,
            (*final(self)).is_without_rows(*old(self)),
            final(self).menu_entities.left_column@.len() == 0,
            final(self).menu_entities.right_column@.len() == 0,
            final(self).menu == old(self).menu,
            final(self).decision_menu == old(self).decision_menu,
            final(self).switch_menu == old(self).switch_menu,
            final(self).selection == old(self).selection,
            final(self).side == old(self).side,
    {
        let mut removed = DecisionEntities { left_column: Vec::new(), right_column: Vec::new() };
        std::mem::swap(&mut self.menu_entities, &mut removed);
        removed
    }

    /// The item under the cursor.
    pub open spec fn item_under_cursor(&self) -> Option<Decision> {
        match self.decision_menu {
            None => None,
            Some(menu) => if self.side == 1 {
                if self.selection < menu.right_column@.len() {
                    Some(menu.right_column@[self.selection as int])
                } else {
                    None
                }
            } else {
                if self.selection < menu.left_column@.len() {
                    Some(menu.left_column@[self.selection as int])
                } else {
                    None
                }
            },
        }
    }

    /// Selects the item under the cursor.
    ///
    /// An item with a menu of its own makes that menu the active one. An item
    /// with an action hands the action over to be run, and with it the rows
    /// that were on screen, which are taken off the books. Otherwise nothing
    /// happens.
    pub fn select(&mut self) -> (selected: Selected)
        ensures
            final(self).menu == old(self).menu,
            match old(self).item_under_cursor() {
                None => selected is Nothing && *final(self) == *old(self),
                Some(item) => match item.submenu {
                    Some(submenu) => {
                        &&& selected is Opened
                        &&& final(self).decision_menu matches Some(menu) && menu.model()
                            == submenu.model()
                        &&& final(self).switch_menu
                        &&& final(self).selection == 0
                        &&& final(self).side == 0
                        &&& final(self).menu_entities.left_column@.len() == 0
                        &&& final(self).menu_entities.right_column@.len() == 0
                    },
                    None => match item.system {
                        Some(system) => {
                            &&& selected matches Selected::Action { action, removed }
                            &&& action == system
                            &&& removed == old(self).menu_entities
                            &&& final(self).menu_entities.left_column@.len() == 0
                            &&& final(self).menu_entities.right_column@.len() == 0
                            &&& final(self).decision_menu == old(self).decision_menu
                            &&& final(self).switch_menu == old(self).switch_menu
                            &&& final(self).selection == old(self).selection
                            &&& final(self).side == old(self).side
                        },
                        None => selected is Nothing && *final(self) == *old(self),
                    },
                },
            },
    {
        let mut opened: Option<DecisionMenu> = None;
        let mut action: Option<MenuAction> = None;
        match &self.decision_menu {
            None => {},
            Some(menu) => {
                let column: &Vec<Decision> = if self.side == 1 {
                    &menu.right_column
                } else {
                    &menu.left_column
                };
                if self.selection < column.len() {
                    let item: &Decision = &column[self.selection];
                    match &item.submenu {
                        Some(submenu) => {
                            opened = Some(submenu.duplicate());
                        },
                        None => {
                            action = item.system;
                        },
                    }
                }
            },
        }
        match opened {
            Some(menu) => {
                self.enter_menu(menu);
                Selected::Opened
            },
            None => match action {
                Some(action) => {
                    let removed = self.remove_decisions();
                    Selected::Action { action, removed }
                },
                None => Selected::Nothing,
            },
        }
    }
}

/// The key of the top-level menu's selected button is a key of `decisions`.
pub open spec fn has_menu_for(menu_select: &MenuSelect, decisions: &Decisions) -> bool {
    &&& menu_select.selection < menu_select.selections@.len()
    &&& decisions.menu@.contains_key(
        menu_select.selections@[menu_select.selection as int].key_spec(),
    )
}

/// On entry to the decision phase: makes the menu of the selected button the
/// active one. Returns whether there is such a menu; without one nothing
/// changes.
pub fn init_decision_menu(menu_select: &MenuSelect, decisions: &mut Decisions) -> (entered: bool)
    ensures
        entered == has_menu_for(menu_select, old(decisions)),
        final(decisions).menu == old(decisions).menu,
        !entered ==> *final(decisions) == *old(decisions),
        entered ==> {
            &&& final(decisions).decision_menu matches Some(menu) && menu.model() == old(
                decisions,
            ).menu@[menu_select.selections@[menu_select.selection as int].key_spec()].model()
            &&& final(decisions).switch_menu
            &&& final(decisions).selection == 0
            &&& final(decisions).side == 0
            &&& final(decisions).menu_entities.left_column@.len() == 0
            &&& final(decisions).menu_entities.right_column@.len() == 0
        },
{
    broadcast use vstd::std_specs::hash::group_hash_axioms;

    let option: MenuOption = match menu_select.get_option() {
        None => {
            return false;
        },
        Some(option) => option,
    };
    let key: u64 = option.key();
    let copy: DecisionMenu = match decisions.menu.get(&key) {
        None => {
            return false;
        },
        Some(menu) => menu.duplicate(),
    };
    decisions.enter_menu(copy);
    true
}

/// The steps that the keys ask of the cursor: down and right count forward,
/// up and left count back.
pub open spec fn key_steps(keys: CursorKeys) -> (int, int) {
    (
        (if keys.down {
            1int
        } else {
            0int
        }) - (if keys.up {
            1int
        } else {
            0int
        }),
        (if keys.right {
            1int
        } else {
            0int
        }) - (if keys.left {
            1int
        } else {
            0int
        }),
    )
}

/// One frame of the cursor: it moves in its column as the up and down keys
/// ask, then between the columns as the left and right keys ask.
pub fn update_decisions(decisions: &mut Decisions, keys: &CursorKeys)
    ensures
        final(decisions).side == cycled(old(decisions).side as int, key_steps(*keys).1, 2),
        final(decisions).selection == (match old(decisions).decision_menu {
            Some(menu) => cycled(
                cycled(
                    old(decisions).selection as int,
                    key_steps(*keys).0,
                    menu.column_len(old(decisions).side as int),
                ),
                0,
                menu.column_len(final(decisions).side as int),
            ),
            None => old(decisions).selection as int,
        }),
        final(decisions).decision_menu == old(decisions).decision_menu,
        final(decisions).menu == old(decisions).menu,
        final(decisions).menu_entities == old(decisions).menu_entities,
        final(decisions).switch_menu == old(decisions).switch_menu,
        final(decisions).wf(),
{
    let mut vertical: i32 = 0;
    let mut horizontal: i32 = 0;
    if keys.left {
        horizontal = horizontal - 1;
    }
    if keys.right {
        horizontal = horizontal + 1;
    }
    if keys.up {
        vertical = vertical - 1;
    }
    if keys.down {
        vertical = vertical + 1;
    }
    decisions.vertical_cycle(vertical);
    decisions.horizontal_cycle(horizontal);
}

/// The distance between two rows of a decision menu.
pub const ROW_INCREMENT: i32 = 32_000;

/// The distance between the two columns of a decision menu.
pub const COLUMN_SPACING: i32 = 256_000;

/// Where the first row of the left column starts, relative to the board's centre.
pub const ROW_ORIGIN_X: i32 = 32_100;

/// Where the first row starts, relative to the board's centre.
pub const ROW_ORIGIN_Y: i32 = -16_000;

/// A row of the active menu as it is put on screen.
#[derive(Debug)]
pub struct DecisionRow {
    /// The text of the row.
    pub label: String,
    pub position: Vec2i,
    /// The column of the row: 0 left, 1 right.
    pub side: usize,
}

/// The text of a row: a bullet mark and the item's name.
pub open spec fn row_label(display: Seq<char>) -> Seq<char> {
    "* "@ + display
}

/// Where row `i` of the column `side` stands: below the row before it by the
/// row increment, the right column beside the left by the column spacing.
pub open spec fn row_position(board: BulletBoard, side: int, i: int) -> Vec2i {
    Vec2i {
        x: saturated(
            board.position.x + ROW_ORIGIN_X + (if side == 1 {
                COLUMN_SPACING as int
            } else {
                0
            }),
        ) as i32,
        y: saturated(board.position.y + ROW_ORIGIN_Y - ROW_INCREMENT * i) as i32,
    }
}

/// The rows of one column: one for each item, in the order of the column.
pub open spec fn rows_match(
    rows: Seq<DecisionRow>,
    column: Seq<Decision>,
    board: BulletBoard,
    side: int,
) -> bool {
    &&& rows.len() == column.len()
    &&& forall|i: int|
        0 <= i < rows.len() ==> {
            &&& (#[trigger] rows[i]).label@ == row_label(column[i].display@)
            &&& rows[i].position == row_position(board, side, i)
            &&& rows[i].side == side
        }
}

fn row_place(board: &BulletBoard, side: usize, i: usize) -> (position: Vec2i)
    ensures
        position == row_position(*board, side as int, i as int),
{
    let x: i64 = board.position.x as i64 + ROW_ORIGIN_X as i64 + (if side == 1 {
        COLUMN_SPACING as i64
    } else {
        0
    });
    let y: i32 = if i > 0x4_0000 {
        i32::MIN
    } else {
        saturate(board.position.y as i64 + ROW_ORIGIN_Y as i64 - 32_000 * (i as i64))
    };
    Vec2i { x: saturate(x), y }
}

fn column_rows(column: &Vec<Decision>, board: &BulletBoard, side: usize) -> (rows: Vec<DecisionRow>)
    ensures
        rows_match(rows@, column@, *board, side as int),
{
    let mut rows: Vec<DecisionRow> = Vec::new();
    let mut i: usize = 0;
    while i < column.len()
        invariant
            i <= column@.len(),
            rows@.len() == i,
            forall|j: int|
                0 <= j < i ==> {
                    &&& (#[trigger] rows@[j]).label@ == row_label(column@[j].display@)
                    &&& rows@[j].position == row_position(*board, side as int, j)
                    &&& rows@[j].side == side
                },
        decreases column@.len() - i,
    {
        let label: String = String::from_str("* ").concat(column[i].display.as_str());
        rows.push(DecisionRow { label, position: row_place(board, side, i), side });
        i = i + 1;
    }
    rows
}

/// Brings the rows on screen up to date.
///
/// Where new rows were asked for, the request is taken back and the rows of
/// the active menu are returned, the left column first: all rows that were on
/// screen are to be removed and these put in their place. Otherwise, and
/// without an active menu, there is nothing to do.
pub fn update_decision_spawning(decisions: &mut Decisions, bullet_board: &BulletBoard) -> (rows:
    Option<(Vec<DecisionRow>, Vec<DecisionRow>)>)
    ensures
        !final(decisions).switch_menu || old(decisions).decision_menu is None,
        final(decisions).switch_menu ==> old(decisions).switch_menu,
        final(decisions).menu == old(decisions).menu,
        final(decisions).decision_menu == old(decisions).decision_menu,
        final(decisions).menu_entities == old(decisions).menu_entities,
        final(decisions).selection == old(decisions).selection,
        final(decisions).side == old(decisions).side,
        rows is Some <==> old(decisions).switch_menu && old(decisions).decision_menu is Some,
        rows is None ==> final(decisions).switch_menu == old(decisions).switch_menu,
        rows matches Some(both) ==> {
            &&& old(decisions).decision_menu matches Some(menu)
            &&& rows_match(both.0@, menu.left_column@, *bullet_board, 0)
            &&& rows_match(both.1@, menu.right_column@, *bullet_board, 1)
        },
{
    if !decisions.switch_menu {
        return None;
    }
    let both: (Vec<DecisionRow>, Vec<DecisionRow>) = match &decisions.decision_menu {
        None => {
            return None;
        },
        Some(menu) => (
            column_rows(&menu.left_column, bullet_board, 0),
            column_rows(&menu.right_column, bullet_board, 1),
        ),
    };
    decisions.switch_menu = false;
    Some(both)
}

/// Puts the handle of a row that is now on screen on the books.
pub fn spawn_decision(decisions: &mut Decisions, side: usize, entity: u64)
    ensures
        final(decisions).menu == old(decisions).menu,
        final(decisions).decision_menu == old(decisions).decision_menu,
        final(decisions).switch_menu == old(decisions).switch_menu,
        final(decisions).selection == old(decisions).selection,
        final(decisions).side == old(decisions).side,
        side == 1 ==> {
            &&& final(decisions).menu_entities.right_column@ == old(
                decisions,
            ).menu_entities.right_column@.push(entity)
            &&& final(decisions).menu_entities.left_column@ == old(
                decisions,
            ).menu_entities.left_column@
        },
        side != 1 ==> {
            &&& final(decisions).menu_entities.left_column@ == old(
                decisions,
            ).menu_entities.left_column@.push(entity)
            &&& final(decisions).menu_entities.right_column@ == old(
                decisions,
            ).menu_entities.right_column@
        },
{
    if side == 1 {
        decisions.menu_entities.right_column.push(entity);
    } else {
        decisions.menu_entities.left_column.push(entity);
    }
}

/// An item that runs `system`, as a model.
pub open spec fn action_item(display: Seq<char>, system: MenuAction) -> DecisionModel {
    DecisionModel { display, system: Some(system), submenu: None }
}

/// The menu that the given button opens in this encounter.
///
/// Fight and act name the opponent; acting on it opens the choice between
/// checking and talking. The item menu holds one item, the mercy menu the
/// choice between sparing and fleeing.
pub open spec fn standard_menu(option: MenuOption) -> MenuModel {
    match option {
        MenuOption::Fight => MenuModel {
            left_column: seq![action_item("Biped Potato"@, MenuAction::StartFight)],
            right_column: seq![],
        },
        MenuOption::Act => MenuModel {
            left_column: seq![
                DecisionModel {
                    display: "Biped Potato"@,
                    system: None,
                    submenu: Some(
                        MenuModel {
                            left_column: seq![action_item("Check"@, MenuAction::Check)],
                            right_column: seq![action_item("Talk"@, MenuAction::Talk)],
                        },
                    ),
                },
            ],
            right_column: seq![],
        },
        MenuOption::Item => MenuModel {
            left_column: seq![action_item("Monster Candy"@, MenuAction::Item)],
            right_column: seq![],
        },
        MenuOption::Mercy => MenuModel {
            left_column: seq![
                action_item("Spare"@, MenuAction::Item),
                action_item("Flee"@, MenuAction::Item),
            ],
            right_column: seq![],
        },
    }
}

fn menu_of(left: Vec<Decision>, right: Vec<Decision>) -> (menu: DecisionMenu)
    ensures
        menu.left_column == left,
        menu.right_column == right,
        menu.model().left_column.len() == left@.len(),
        menu.model().right_column.len() == right@.len(),
        forall|i: int| 0 <= i < left@.len() ==> menu.model().left_column[i] == left@[i].model(),
        forall|i: int| 0 <= i < right@.len() ==> menu.model().right_column[i] == right@[i].model(),
{
    DecisionMenu { left_column: left, right_column: right }
}

impl Decisions {
    /// The decisions of this encounter: a menu for each button of the
    /// top-level menu, none of them active.
    pub fn new() -> (decisions: Decisions)
        ensures
            forall|option: MenuOption|
                {
                    &&& decisions.menu@.contains_key(#[trigger] option.key_spec())
                    &&& decisions.menu@[option.key_spec()].model() == standard_menu(option)
                },
            forall|key: u64| decisions.menu@.contains_key(key) ==> key < 4,
            decisions.decision_menu is None,
            decisions.menu_entities.left_column@.len() == 0,
            decisions.menu_entities.right_column@.len() == 0,
            !decisions.switch_menu,
            decisions.selection == 0,
            decisions.side == 0,
            decisions.wf(),
    {
        broadcast use vstd::std_specs::hash::group_hash_axioms;

        let mut fight_left: Vec<Decision> = Vec::new();
        fight_left.push(Decision::new(String::from_str("Biped Potato"), MenuAction::StartFight));
        let fight_menu = menu_of(fight_left, Vec::new());
        assert(fight_menu.model().left_column[0] == action_item(
            "Biped Potato"@,
            MenuAction::StartFight,
        ));
        assert(fight_menu.model().left_column =~= standard_menu(MenuOption::Fight).left_column);
        assert(fight_menu.model().right_column =~= standard_menu(MenuOption::Fight).right_column);
        assert(fight_menu.model() == standard_menu(MenuOption::Fight));

        let mut sub_left: Vec<Decision> = Vec::new();
        sub_left.push(Decision::new(String::from_str("Check"), MenuAction::Check));
        let mut sub_right: Vec<Decision> = Vec::new();
        sub_right.push(Decision::new(String::from_str("Talk"), MenuAction::Talk));
        let act_sub_menu = menu_of(sub_left, sub_right);
        let ghost sub_model = act_sub_menu.model();
        let ghost sub_expected = standard_menu(MenuOption::Act).left_column[0].submenu->0;
        assert(sub_model.left_column[0] == action_item("Check"@, MenuAction::Check));
        assert(sub_model.right_column[0] == action_item("Talk"@, MenuAction::Talk));
        assert(sub_model.left_column =~= sub_expected.left_column);
        assert(sub_model.right_column =~= sub_expected.right_column);
        assert(sub_model == sub_expected);
        let mut act_left: Vec<Decision> = Vec::new();
        let opener = Decision::new_with_menu(String::from_str("Biped Potato"), Some(act_sub_menu));
        assert(opener.model() == standard_menu(MenuOption::Act).left_column[0]);
        act_left.push(opener);
        let act_menu = menu_of(act_left, Vec::new());
        assert(act_menu.model().left_column[0] == standard_menu(MenuOption::Act).left_column[0]);
        assert(act_menu.model().left_column =~= standard_menu(MenuOption::Act).left_column);
        assert(act_menu.model().right_column =~= standard_menu(MenuOption::Act).right_column);
        assert(act_menu.model() == standard_menu(MenuOption::Act));

        let mut item_left: Vec<Decision> = Vec::new();
        item_left.push(Decision::new(String::from_str("Monster Candy"), MenuAction::Item));
        let item_menu = menu_of(item_left, Vec::new());
        assert(item_menu.model().left_column[0] == action_item(
            "Monster Candy"@,
            MenuAction::Item,
        ));
        assert(item_menu.model().left_column =~= standard_menu(MenuOption::Item).left_column);
        assert(item_menu.model().right_column =~= standard_menu(MenuOption::Item).right_column);
        assert(item_menu.model() == standard_menu(MenuOption::Item));

        let mut mercy_left: Vec<Decision> = Vec::new();
        mercy_left.push(Decision::new(String::from_str("Spare"), MenuAction::Item));
        mercy_left.push(Decision::new(String::from_str("Flee"), MenuAction::Item));
        let mercy_menu = menu_of(mercy_left, Vec::new());
        assert(mercy_menu.model().left_column[0] == action_item("Spare"@, MenuAction::Item));
        assert(mercy_menu.model().left_column[1] == action_item("Flee"@, MenuAction::Item));
        assert(mercy_menu.model().left_column =~= standard_menu(MenuOption::Mercy).left_column);
        assert(mercy_menu.model().right_column =~= standard_menu(MenuOption::Mercy).right_column);
        assert(mercy_menu.model() == standard_menu(MenuOption::Mercy));

        let mut menu: HashMap<u64, DecisionMenu> = HashMap::new();
        menu.insert(MenuOption::Fight.key(), fight_menu);
        menu.insert(MenuOption::Act.key(), act_menu);
        menu.insert(MenuOption::Item.key(), item_menu);
        menu.insert(MenuOption::Mercy.key(), mercy_menu);
        let decisions = Decisions::with_menus(menu);
        assert forall|option: MenuOption|
            {
                &&& decisions.menu@.contains_key(#[trigger] option.key_spec())
                &&& decisions.menu@[option.key_spec()].model() == standard_menu(option)
            } by {
            match option {
                MenuOption::Fight => {},
                MenuOption::Act => {},
                MenuOption::Item => {},
                MenuOption::Mercy => {},
            }
        }
        decisions
    }
}

} // verus!
