//! The attack scripts: timed volleys of bullets fired into the board.

use vstd::prelude::*;
use crate::board::{BoardLayout, BulletBoard};
use crate::dodging::DodgingPhaseManager;
use crate::fixed::{
    ceil_div, directed, div_ceil, lemma_division_shapes, lemma_quotient_bounds, magnitude, saturate,
    saturated,
};
use crate::geometry::Vec2i;
use crate::physics::PhysicsComponent;

verus! {

/// The distance between neighbouring bullets of a volley.
pub const VOLLEY_SPACING: i32 = 20_000;

/// The speed of a bullet, in length units per second.
pub const BULLET_SPEED: i32 = 5_000;

/// How far a bullet's hitbox reaches to each side.
pub const BULLET_HALF_HITBOX: i32 = 6_000;

/// How far a bullet's sprite reaches to each side.
pub const BULLET_HALF_SIZE: i32 = 8_000;

/// The place in the row that every volley leaves empty.
pub const VOLLEY_GAP: i64 = 4;

/// How long the four-directional volley attack lasts.
pub const ATTACK_1_DURATION: u32 = 10_000_000;

/// The time between two volleys.
pub const ATTACK_1_INTERVAL: u32 = 2_000_000;

/// The scripts an encounter can run.
#[derive(Clone, Copy, Debug, PartialEq, Eq, Structural)]
pub enum AttackScript {
    /// Volleys from the four sides of the board in turn.
    Attack1,
}

/// The state of the four-directional volley attack.
#[derive(Clone, Copy, Debug, PartialEq, Eq, Structural)]
pub struct Attack1 {
    /// The time until the next volley.
    pub attack_timer: u32,
    /// The time between two volleys.
    pub attack_time: u32,
    /// The side the next volley comes from, counted in fours: 0 left, 1 top,
    /// 2 right, 3 bottom.
    pub attack_dir: i32,
}

/// The unit offset from the board's centre to the side a volley comes from.
/// The sides are counted in fours: left, top, right, bottom, and left again.
pub open spec fn spawn_direction(attack_dir: int) -> (int, int) {
    let side = attack_dir % 4;
    if side == 0 {
        (-1, 0)
    } else if side == 1 {
        (0, 1)
    } else if side == 2 {
        (1, 0)
    } else {
        (0, -1)
    }
}

/// The direction after `attack_dir` in the cycle left, top, right, bottom.
pub open spec fn next_direction(attack_dir: int) -> int {
    (attack_dir + 1) % 4
}

/// The places in the row of a volley: the board's width over the spacing,
/// rounded up.
pub open spec fn volley_count(width: int, spacing: int) -> int {
    ceil_div(width, spacing)
}

/// The bullets a volley spawns: one for each place of the row but the gap.
pub open spec fn volley_len(width: int, spacing: int) -> nat {
    let count = volley_count(width, spacing);
    if count > VOLLEY_GAP {
        (count - 1) as nat
    } else if count > 0 {
        count as nat
    } else {
        0
    }
}

/// The place in the row of the `k`-th bullet that is spawned.
pub open spec fn volley_index(k: int) -> int {
    if k < VOLLEY_GAP {
        k
    } else {
        k + 1
    }
}

/// The bullet at place `i` of the row.
///
/// It starts one board width away from the board's centre, on the side the
/// volley comes from; along that side the row starts half its length from the
/// centre and steps back by the spacing. It flies toward the opposite side.
pub open spec fn bullet_spec(board: BulletBoard, attack_dir: int, spacing: int, i: int) -> PhysicsComponent {
    let (sx, sy) = spawn_direction(attack_dir);
    let count = volley_count(board.width as int, spacing);
    let along = (spacing * count) / 2 - spacing * i;
    PhysicsComponent {
        position: Vec2i {
            x: saturated(
                board.position.x + directed(sx, board.width as int) + directed(sy, along),
            ) as i32,
            y: saturated(
                board.position.y + directed(sy, board.width as int) + directed(sx, along),
            ) as i32,
        },
        velocity: Vec2i {
            x: directed(-sx, BULLET_SPEED as int) as i32,
            y: directed(-sy, BULLET_SPEED as int) as i32,
        },
        half_hitbox: Vec2i { x: BULLET_HALF_HITBOX, y: BULLET_HALF_HITBOX },
        half_size: Vec2i { x: BULLET_HALF_SIZE, y: BULLET_HALF_SIZE },
    }
}

/// The bullets of one volley, in the order in which they are spawned.
pub open spec fn volley_spec(board: BulletBoard, attack_dir: int, spacing: int) -> Seq<
    PhysicsComponent,
> {
    Seq::new(
        volley_len(board.width as int, spacing),
        |k: int| bullet_spec(board, attack_dir, spacing, volley_index(k)),
    )
}

/// After four volleys the direction is what it was.
pub proof fn lemma_direction_period(attack_dir: int)
    requires
        0 <= attack_dir < 4,
    ensures
        next_direction(next_direction(next_direction(next_direction(attack_dir)))) == attack_dir,
        0 <= next_direction(attack_dir) < 4,
{
}

/// Whatever the direction, the next one is one of the four, every volley
/// comes from a side of the board, and after four volleys the side is what
/// it was.
pub proof fn lemma_side_period(attack_dir: int)
    ensures
        0 <= next_direction(attack_dir) < 4,
        spawn_direction(attack_dir) != (0int, 0int),
        spawn_direction(next_direction(attack_dir)) != spawn_direction(attack_dir),
        spawn_direction(
            next_direction(next_direction(next_direction(next_direction(attack_dir)))),
        ) == spawn_direction(attack_dir),
{
}

/// A volley has as many bullets as the row has places, less one where the row
/// reaches the gap.
pub proof fn lemma_volley_len(width: int, spacing: int)
    requires
        spacing > 0,
    ensures
        volley_count(width, spacing) > 4 ==> volley_len(width, spacing) == volley_count(
            width,
            spacing,
        ) - 1,
        0 <= volley_count(width, spacing) <= 4 ==> volley_len(width, spacing) == volley_count(
            width,
            spacing,
        ),
        volley_count(width, spacing) < 0 ==> volley_len(width, spacing) == 0,
{
}

/// The row has no more places than the board has length units.
proof fn lemma_volley_count_bounds(width: int, spacing: int)
    requires
        spacing > 0,
    ensures
        width > 0 ==> 0 < volley_count(width, spacing) <= width,
        width <= 0 ==> width <= volley_count(width, spacing) <= 0,
{
    lemma_division_shapes(width, spacing);
    lemma_quotient_bounds(magnitude(width), spacing);
    if width > 0 {
        if magnitude(width) % spacing != 0 {
        } else {
            vstd::arithmetic::div_mod::lemma_fundamental_div_mod(width, spacing);
            assert(spacing * (width / spacing) > 0);
            assert(width / spacing > 0) by (nonlinear_arith)
                requires
                    spacing * (width / spacing) > 0,
                    spacing > 0,
            ;
        }
    }
}

/// The unit offset from the board's centre to the side a volley comes from.
fn spawn_offset(attack_dir: i32) -> (r: (i64, i64))
    ensures
        (r.0 as int, r.1 as int) == spawn_direction(attack_dir as int),
{
    let side: i32 = if attack_dir >= 0 {
        attack_dir % 4
    } else {
        3 - (-(attack_dir + 1)) % 4
    };
    if side == 0 {
        (-1, 0)
    } else if side == 1 {
        (0, 1)
    } else if side == 2 {
        (1, 0)
    } else {
        (0, -1)
    }
}

fn directed_exec(sign: i64, length: i64) -> (r: i64)
    requires
        length > i64::MIN,
    ensures
        r == directed(sign as int, length as int),
{
    if sign < 0 {
        -length
    } else if sign > 0 {
        length
    } else {
        0
    }
}

/// The bullets of one volley across `board` from the side `attack_dir`, with
/// `spacing` between neighbours.
///
/// The row has as many places as the spacing goes into the board's width,
/// rounded up; the fifth place stays empty.
pub fn spawn_volley(board: &BulletBoard, attack_dir: i32, spacing: i32) -> (bullets: Vec<
    PhysicsComponent,
>)
    requires
        spacing > 0,
    ensures
        bullets@ == volley_spec(*board, attack_dir as int, spacing as int),
        bullets@.len() == volley_len(board.width as int, spacing as int),
{
    let (sx, sy) = spawn_offset(attack_dir);
    let count: i64 = div_ceil(board.width as i64, spacing as u32);
    let width: i64 = board.width as i64;
    let step: i64 = spacing as i64;
    proof {
        lemma_volley_count_bounds(board.width as int, spacing as int);
        assert(-0x8000_0000 * 0x8000_0000 <= step * count <= 0x8000_0000 * 0x8000_0000)
            by (nonlinear_arith)
            requires
                0 < step <= 0x7fff_ffff,
                -0x8000_0000 <= count <= 0x7fff_ffff,
        ;
    }
    let row: i64 = step * count;
    let start: i64 = if row >= 0 {
        row / 2
    } else {
        -((-row + 1) / 2)
    };
    assert(start == (step * count) / 2);
    let velocity: Vec2i = Vec2i {
        x: directed_exec(-sx, BULLET_SPEED as i64) as i32,
        y: directed_exec(-sy, BULLET_SPEED as i64) as i32,
    };
    let mut bullets: Vec<PhysicsComponent> = Vec::new();
    let mut i: i64 = 0;
    while i < count
        invariant
            spacing > 0,
            step == spacing,
            width == board.width,
            count == volley_count(board.width as int, spacing as int),
            -0x8000_0000 <= count <= 0x7fff_ffff,
            start == (step * count) / 2,
            -0x8000_0000 * 0x8000_0000 <= step * count <= 0x8000_0000 * 0x8000_0000,
            (sx as int, sy as int) == spawn_direction(attack_dir as int),
            velocity == (Vec2i {
                x: directed(-sx as int, BULLET_SPEED as int) as i32,
                y: directed(-sy as int, BULLET_SPEED as int) as i32,
            }),
            0 <= i,
            count >= 0 ==> i <= count,
            count < 0 ==> i == 0,
            bullets@.len() == (if i > VOLLEY_GAP {
                i - 1
            } else {
                i as int
            }),
            forall|k: int|
                0 <= k < bullets@.len() ==> #[trigger] bullets@[k] == bullet_spec(
                    *board,
                    attack_dir as int,
                    spacing as int,
                    volley_index(k),
                ),
        decreases count - i,
    {
        if i != VOLLEY_GAP {
            assert(0 <= step * i <= step * count) by (nonlinear_arith)
                requires
                    0 <= i <= count,
                    step > 0,
            ;
            let along: i64 = start - step * i;
            let x: i64 = board.position.x as i64 + directed_exec(sx, width) + directed_exec(
                sy,
                along,
            );
            let y: i64 = board.position.y as i64 + directed_exec(sy, width) + directed_exec(
                sx,
                along,
            );
            let ghost k = bullets@.len() as int;
            assert(volley_index(k) == i);
            bullets.push(
                PhysicsComponent {
                    position: Vec2i { x: saturate(x), y: saturate(y) },
                    velocity,
                    half_hitbox: Vec2i { x: BULLET_HALF_HITBOX, y: BULLET_HALF_HITBOX },
                    half_size: Vec2i { x: BULLET_HALF_SIZE, y: BULLET_HALF_SIZE },
                },
            );
        }
        i = i + 1;
    }
    bullets
}

/// Starts the four-directional volley attack: sends the board toward the
/// attack's layout, and resets the dodging time, the volley timer and the
/// direction.
pub fn enter_attack_1(
    bullet_board: &mut BulletBoard,
    dodge_manager: &mut DodgingPhaseManager,
    attack: &mut Attack1,
    layout: BoardLayout,
)
    ensures
        *final(bullet_board) == (BulletBoard {
            target_width: crate::board::non_negative(layout.width as int) as i32,
            target_height: crate::board::non_negative(layout.height as int) as i32,
            target_position: layout.position,
            ..*old(bullet_board)
        }),
        final(dodge_manager).time == ATTACK_1_DURATION,
        final(dodge_manager).attack == old(dodge_manager).attack,
        final(dodge_manager).exit_attack == old(dodge_manager).exit_attack,
        *final(attack) == (Attack1 {
            attack_timer: ATTACK_1_INTERVAL,
            attack_time: ATTACK_1_INTERVAL,
            attack_dir: 0,
        }),
{
    bullet_board.transition_board(layout);
    dodge_manager.time = ATTACK_1_DURATION;
    attack.attack_time = ATTACK_1_INTERVAL;
    attack.attack_timer = ATTACK_1_INTERVAL;
    attack.attack_dir = 0;
}

/// One tick of the four-directional volley attack.
///
/// The volley timer runs down by `dt`. When it reaches zero it starts again
/// from the interval, a volley is fired from the current side, and the side
/// moves on by one. Until then nothing is fired.
pub fn attack_1(attack: &mut Attack1, bullet_board: &BulletBoard, dt: u32) -> (bullets: Vec<
    PhysicsComponent,
>)
    ensures
        final(attack).attack_time == old(attack).attack_time,
        old(attack).attack_timer > dt ==> {
            &&& final(attack).attack_timer == old(attack).attack_timer - dt
            &&& final(attack).attack_dir == old(attack).attack_dir
            &&& bullets@.len() == 0
        },
        old(attack).attack_timer <= dt ==> {
            &&& final(attack).attack_timer == old(attack).attack_time
            &&& final(attack).attack_dir == next_direction(old(attack).attack_dir as int)
            &&& bullets@ == volley_spec(
                *bullet_board,
                old(attack).attack_dir as int,
                VOLLEY_SPACING as int,
            )
            &&& bullets@.len() == volley_len(bullet_board.width as int, VOLLEY_SPACING as int)
        },
{
    if attack.attack_timer > dt {
        attack.attack_timer = attack.attack_timer - dt;
        return Vec::new();
    }
    attack.attack_timer = attack.attack_time;
    let bullets: Vec<PhysicsComponent> = spawn_volley(bullet_board, attack.attack_dir, VOLLEY_SPACING);
    let dir: i64 = attack.attack_dir as i64 + 1;
    attack.attack_dir = if dir >= 0 {
        (dir % 4) as i32
    } else {
        ((dir % 4 + 4) % 4) as i32
    };
    bullets
}

} // verus!
