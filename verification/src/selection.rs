//! The top-level menu: the four buttons, and the one that is selected.

use vstd::prelude::*;
use crate::board::BulletBoard;
use crate::fixed::{div_nearest, floor_div, half, lemma_quotient_is, round_div, saturate, saturated};
use crate::geometry::Vec2i;

verus! {

/// The width of a button.
pub const BUTTON_WIDTH: i32 = 110_000;

/// The gap between two buttons.
pub const BUTTON_SPACING: i32 = 45_000;

/// The height at which the buttons stand.
pub const BUTTON_ROW_Y: i32 = -213_000;

/// The board's width during the menu phases.
pub const MENU_BOARD_WIDTH: i32 = 565_000;

/// The board's height during the menu phases.
pub const MENU_BOARD_HEIGHT: i32 = 130_000;

/// The board's height above the origin during the menu phases.
pub const MENU_BOARD_Y: i32 = -80_000;

/// A button of the top-level menu.
#[derive(Clone, Copy, Debug, PartialEq, Eq, Structural)]
pub enum MenuOption {
    Fight,
    Act,
    Item,
    Mercy,
}

impl MenuOption {
    /// The number that stands for the option where options are keys.
    pub open spec fn key_spec(self) -> u64 {
        match self {
            MenuOption::Fight => 0,
            MenuOption::Act => 1,
            MenuOption::Item => 2,
            MenuOption::Mercy => 3,
        }
    }

    pub fn key(self) -> (k: u64)
        ensures
            k == self.key_spec(),
    {
        match self {
            MenuOption::Fight => 0,
            MenuOption::Act => 1,
            MenuOption::Item => 2,
            MenuOption::Mercy => 3,
        }
    }
}

/// The buttons of the top-level menu, and the place of the selected one.
#[derive(Debug)]
pub struct MenuSelect {
    pub selection: usize,
    pub selections: Vec<MenuOption>,
}

/// The place after `selection` among `len` places, the first following the
/// last. Without places it is the first.
pub open spec fn next_place(selection: int, len: int) -> int {
    if len <= 0 {
        0
    } else {
        (selection + 1) % len
    }
}

impl MenuSelect {
    /// The four buttons in their order, the first selected.
    pub fn new() -> (menu: MenuSelect)
        ensures
            menu.selection == 0,
            menu.selections@ == seq![
                MenuOption::Fight,
                MenuOption::Act,
                MenuOption::Item,
                MenuOption::Mercy,
            ],
    {
        let mut selections: Vec<MenuOption> = Vec::new();
        selections.push(MenuOption::Fight);
        selections.push(MenuOption::Act);
        selections.push(MenuOption::Item);
        selections.push(MenuOption::Mercy);
        MenuSelect { selection: 0, selections }
    }

    /// Moves the selection on by one button, from the last to the first.
    pub fn cycle(&mut self)
        ensures
            final(self).selections == old(self).selections,
            final(self).selection == next_place(
                old(self).selection as int,
                old(self).selections@.len() as int,
            ),
            old(self).selections@.len() > 0 ==> final(self).selection < old(self).selections@.len(),
    {
        let len: usize = self.selections.len();
        if len == 0 {
            self.selection = 0;
        } else {
            let place: usize = self.selection % len;
            proof {
                let n = len as int;
                let s = self.selection as int;
                let q = s / n;
                vstd::arithmetic::div_mod::lemma_fundamental_div_mod(s, n);
                vstd::arithmetic::div_mod::lemma_mod_bound(s, n);
                assert(s == q * n + place) by (nonlinear_arith)
                    requires
                        s == n * q + place,
                ;
                if place + 1 == n {
                    assert((q + 1) * n == q * n + n) by (nonlinear_arith);
                    lemma_quotient_is(s + 1, n, q + 1, 0);
                } else {
                    lemma_quotient_is(s + 1, n, q, place + 1);
                }
            }
            self.selection = if place + 1 == len {
                0
            } else {
                place + 1
            };
        }
    }

    /// The selected button, where the selection is one.
    pub fn get_option(&self) -> (option: Option<MenuOption>)
        ensures
            self.selection < self.selections@.len() ==> option == Some(
                self.selections@[self.selection as int],
            ),
            self.selection >= self.selections@.len() ==> option is None,
    {
        if self.selection < self.selections.len() {
            Some(self.selections[self.selection])
        } else {
            None
        }
    }
}

/// Puts the board at the size and place of the menu phases.
pub fn init_bullet_board_size(bullet_board: &mut BulletBoard)
    ensures
        *final(bullet_board) == (BulletBoard {
            width: MENU_BOARD_WIDTH,
            height: MENU_BOARD_HEIGHT,
            position: Vec2i { x: 0, y: MENU_BOARD_Y },
            target_width: MENU_BOARD_WIDTH,
            target_height: MENU_BOARD_HEIGHT,
            target_position: Vec2i { x: 0, y: MENU_BOARD_Y },
            ..*old(bullet_board)
        }),
{
    bullet_board.set_absolute(MENU_BOARD_WIDTH, MENU_BOARD_HEIGHT, Vec2i { x: 0, y: MENU_BOARD_Y });
}

/// Where button `i` stands: the row starts flush with the outer edge of the
/// board's left border, each button takes its width and the gap, and the place
/// is rounded to the nearest whole pixel.
pub open spec fn button_position(board: BulletBoard, i: int) -> Vec2i {
    let start = -floor_div(board.width as int, 2) - board.border + BUTTON_WIDTH / 2;
    let x = start + i * (BUTTON_SPACING + BUTTON_WIDTH);
    Vec2i { x: saturated(round_div(x, 1000) * 1000) as i32, y: BUTTON_ROW_Y }
}

/// The places of the buttons, each with its option, in the order of the menu.
pub fn spawn_buttons(menu: &MenuSelect, bullet_board: &BulletBoard) -> (buttons: Vec<
    (Vec2i, MenuOption),
>)
    ensures
        buttons@.len() == menu.selections@.len(),
        forall|i: int|
            0 <= i < buttons@.len() ==> #[trigger] buttons@[i] == (
                button_position(*bullet_board, i),
                menu.selections@[i],
            ),
{
    let start: i64 = -(half(bullet_board.width) as i64) - bullet_board.border as i64 + (
    BUTTON_WIDTH as i64) / 2;
    let mut buttons: Vec<(Vec2i, MenuOption)> = Vec::new();
    let mut i: usize = 0;
    while i < menu.selections.len()
        invariant
            i <= menu.selections@.len(),
            buttons@.len() == i,
            start == -floor_div(bullet_board.width as int, 2) - bullet_board.border + BUTTON_WIDTH
                / 2,
            forall|j: int|
                0 <= j < i ==> #[trigger] buttons@[j] == (
                    button_position(*bullet_board, j),
                    menu.selections@[j],
                ),
        decreases menu.selections@.len() - i,
    {
        let x: i32 = button_x(start, i);
        buttons.push((Vec2i { x, y: BUTTON_ROW_Y }, menu.selections[i]));
        i = i + 1;
    }
    buttons
}

fn button_x(start: i64, i: usize) -> (x: i32)
    requires
        -0x1_0000_0000 <= start <= 0x1_0000_0000,
    ensures
        x == saturated(round_div(start + i * (BUTTON_SPACING + BUTTON_WIDTH), 1000) * 1000),
{
    if i > 0x1_0000 {
        proof {
            let c = start + i * (BUTTON_SPACING + BUTTON_WIDTH);
            assert(c >= 0x1_0000 * 155000 - 0x1_0000_0000);
            let m = crate::fixed::magnitude(c);
            vstd::arithmetic::div_mod::lemma_div_is_ordered(4_294_968_000, 2 * m + 1000, 2000);
        }
        i32::MAX
    } else {
        let c: i64 = start + (i as i64) * 155000;
        let whole: i64 = div_nearest(c, 1000);
        proof {
            let m = crate::fixed::magnitude(c as int);
            crate::fixed::lemma_rounded_quotient_bounds(m, 1000);
        }
        saturate(whole * 1000)
    }
}

} // verus!
