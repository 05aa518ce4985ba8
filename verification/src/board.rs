//! The bullet board: the arena that bounds the player and anchors the attacks.
//!
//! The board's size and place move toward their targets by a limited step on
//! every tick, and never pass them.

use vstd::prelude::*;
use crate::fixed::{
    clamp, directed, floor_div, half, lemma_product_bound, lemma_square_monotonic,
    lemma_square_of_magnitude, magnitude, saturate, saturated, unsigned_abs,
};
use crate::geometry::{
    lemma_scaled_offset, scale_offset, scaled_offset, squared_length, Vec2i,
};

verus! {

/// The step from `start` toward `end`: its direction is that of `end - start`,
/// its length is `rate`, cut to the distance that is left and to no less than zero.
pub open spec fn move_towards_spec(start: int, end: int, rate: int) -> int {
    directed(end - start, clamp(rate, 0, magnitude(end - start)))
}

/// The value that `start` has after one step toward `end` at no more than
/// `rate`.
///
/// The value never passes `end` and never moves away from it. Far from `end`
/// it moves by the rate exactly; it is `end` exactly when the distance left
/// is no more than the rate. A rate that is not positive leaves it where it
/// is.
pub fn move_towards(start: i32, end: i32, rate: i32) -> (r: i32)
    ensures
        r == start + move_towards_spec(start as int, end as int, rate as int),
        between(start as int, r as int, end as int),
        magnitude(r - start) <= non_negative(rate as int),
        r == end <==> magnitude(end - start) <= non_negative(rate as int),
        magnitude(end - start) > non_negative(rate as int) ==> {
            &&& magnitude(r - start) == non_negative(rate as int)
            &&& magnitude(end - r) == magnitude(end - start) - non_negative(rate as int)
        },
{
    let diff: i64 = end as i64 - start as i64;
    let dist: i64 = if diff < 0 {
        -diff
    } else {
        diff
    };
    let length: i64 = if rate < 0 {
        0
    } else if rate as i64 > dist {
        dist
    } else {
        rate as i64
    };
    let step: i64 = if diff < 0 {
        -length
    } else if diff > 0 {
        length
    } else {
        0
    };
    (start as i64 + step) as i32
}

/// The step from `start` toward `end` on the plane.
///
/// With no positive rate there is no step. Where the distance left is no more
/// than `rate`, the step is all of it. Otherwise the offset is brought to the
/// length `rate`: each coordinate is scaled by `rate` over the offset's length
/// and rounded toward zero, so that the step is never longer than `rate` and
/// never nothing.
pub open spec fn move_towards_vec_spec(start: Vec2i, end: Vec2i, rate: int) -> Vec2i {
    let dx = end.x - start.x;
    let dy = end.y - start.y;
    if rate <= 0 {
        Vec2i { x: 0, y: 0 }
    } else if squared_length(dx, dy) <= rate * rate {
        Vec2i { x: dx as i32, y: dy as i32 }
    } else {
        let (sx, sy) = scaled_offset(dx, dy, rate);
        Vec2i { x: sx as i32, y: sy as i32 }
    }
}

/// What holds of every planar step: no coordinate passes its target, the step
/// is no longer than a positive rate, it is the whole offset exactly where the
/// offset is no longer than the rate, with a positive rate it is nothing only
/// at the target, and short of the target it falls short of the rate by less
/// than two units.
pub proof fn lemma_move_towards_vec(start: Vec2i, end: Vec2i, rate: int)
    requires
        rate <= i32::MAX,
    ensures
        ({
            let step = move_towards_vec_spec(start, end, rate);
            let dx = end.x - start.x;
            let dy = end.y - start.y;
            &&& dx >= 0 ==> 0 <= step.x <= dx
            &&& dx <= 0 ==> dx <= step.x <= 0
            &&& dy >= 0 ==> 0 <= step.y <= dy
            &&& dy <= 0 ==> dy <= step.y <= 0
            &&& squared_length(step.x as int, step.y as int) <= if rate > 0 {
                rate * rate
            } else {
                0
            }
            &&& (start.x + step.x == end.x && start.y + step.y == end.y) <==> (squared_length(
                dx,
                dy,
            ) <= if rate > 0 {
                rate * rate
            } else {
                0
            })
            &&& rate > 0 && (dx != 0 || dy != 0) ==> step.x != 0 || step.y != 0
            &&& rate > 0 && squared_length(dx, dy) > rate * rate ==> squared_length(
                step.x as int,
                step.y as int,
            ) >= (rate - 2) * (rate - 2)
        }),
{
    let step = move_towards_vec_spec(start, end, rate);
    let dx = end.x - start.x;
    let dy = end.y - start.y;
    let d2 = squared_length(dx, dy);
    let ax = magnitude(dx);
    let ay = magnitude(dy);
    lemma_square_of_magnitude(dx);
    lemma_square_of_magnitude(dy);
    if rate <= 0 {
        if d2 == 0 {
            assert(dx == 0 && dy == 0) by (nonlinear_arith)
                requires
                    dx * dx + dy * dy == 0,
            ;
        }
    } else if d2 <= rate * rate {
        if ax > rate {
            lemma_square_monotonic(rate + 1, ax);
            assert((rate + 1) * (rate + 1) > rate * rate) by (nonlinear_arith)
                requires
                    rate > 0,
            ;
        }
        if ay > rate {
            lemma_square_monotonic(rate + 1, ay);
            assert((rate + 1) * (rate + 1) > rate * rate) by (nonlinear_arith)
                requires
                    rate > 0,
            ;
        }
        assert(ax <= rate && ay <= rate);
    } else {
        assert(dx != 0 || dy != 0) by (nonlinear_arith)
            requires
                dx * dx + dy * dy > rate * rate,
                rate > 0,
        ;
        lemma_scaled_offset(dx, dy, rate);
        let (sx, sy) = scaled_offset(dx, dy, rate);
        if start.x + step.x == end.x && start.y + step.y == end.y {
            assert(sx == dx && sy == dy);
        }
    }
}

/// The step from `start` toward `end` on the plane, at no more than `rate`.
/// With a positive rate it is nothing only at the target.
pub fn move_towards_vec(start: Vec2i, end: Vec2i, rate: i32) -> (step: Vec2i)
    ensures
        step == move_towards_vec_spec(start, end, rate as int),
        rate > 0 && start != end ==> step.x != 0 || step.y != 0,
        squared_length(step.x as int, step.y as int) <= non_negative(rate as int) * non_negative(
            rate as int,
        ),
{
    proof {
        lemma_move_towards_vec(start, end, rate as int);
    }
    let dx: i64 = end.x as i64 - start.x as i64;
    let dy: i64 = end.y as i64 - start.y as i64;
    if rate <= 0 {
        return Vec2i { x: 0, y: 0 };
    }
    let ax: u128 = unsigned_abs(dx) as u128;
    let ay: u128 = unsigned_abs(dy) as u128;
    let r: u128 = rate as u128;
    proof {
        lemma_product_bound(ax as int, ax as int, 0xffff_ffff, 0xffff_ffff);
        lemma_product_bound(ay as int, ay as int, 0xffff_ffff, 0xffff_ffff);
        lemma_product_bound(r as int, r as int, 0x7fff_ffff, 0x7fff_ffff);
        lemma_square_of_magnitude(dx as int);
        lemma_square_of_magnitude(dy as int);
    }
    let d2: u128 = ax * ax + ay * ay;
    let r2: u128 = r * r;
    assert(d2 == squared_length(dx as int, dy as int));
    if d2 <= r2 {
        proof {
            lemma_move_towards_vec(start, end, rate as int);
        }
        return Vec2i { x: dx as i32, y: dy as i32 };
    }
    let (sx, sy) = scale_offset(dx, dy, rate);
    Vec2i { x: sx, y: sy }
}

/// One of the four border segments that frame the board.
#[derive(Clone, Copy, Debug, PartialEq, Eq, Structural)]
pub enum BulletBoardBorder {
    Right,
    Left,
    Top,
    Bottom,
}

/// A size and a place for the board to move to.
#[derive(Clone, Copy, Debug, PartialEq, Eq, Structural)]
pub struct BoardLayout {
    pub width: i32,
    pub height: i32,
    pub position: Vec2i,
}

/// The arena: its current size and place, the size and place it moves toward,
/// the thickness of its border, and how far size and place may move in a tick.
#[derive(Clone, Copy, Debug, PartialEq, Eq, Structural)]
pub struct BulletBoard {
    pub width: i32,
    pub height: i32,
    pub position: Vec2i,
    pub target_width: i32,
    pub target_height: i32,
    pub target_position: Vec2i,
    pub border: i32,
    /// How far width and height may change in one tick.
    pub expansion_rate: i32,
    /// How far the position may move in one tick.
    pub movement_rate: i32,
}

/// `x`, or 0 where `x` is negative.
pub open spec fn non_negative(x: int) -> int {
    if x < 0 {
        0
    } else {
        x
    }
}

/// `mid` lies between `from` and `to`, ends included, whichever of the two is larger.
pub open spec fn between(from: int, mid: int, to: int) -> bool {
    (from <= mid <= to) || (to <= mid <= from)
}

/// A coordinate held inside an interval around `center`, the upper side
/// corrected first and the lower side last: where the extent is wider than the
/// interval, it ends flush with the lower side.
pub open spec fn constrain_upper_first(p: int, extent: int, center: int, reach: int) -> int {
    let p1 = if p + extent > center + reach {
        center + reach - extent
    } else {
        p
    };
    if p1 - extent < center - reach {
        center - reach + extent
    } else {
        p1
    }
}

/// A coordinate held inside an interval around `center`, the lower side
/// corrected first and the upper side last: where the extent is wider than the
/// interval, it ends flush with the upper side.
pub open spec fn constrain_lower_first(p: int, extent: int, center: int, reach: int) -> int {
    let p1 = if p - extent < center - reach {
        center - reach + extent
    } else {
        p
    };
    if p1 + extent > center + reach {
        center + reach - extent
    } else {
        p1
    }
}

fn clamp_low(x: i32) -> (r: i32)
    ensures
        r == non_negative(x as int),
{
    if x < 0 {
        0
    } else {
        x
    }
}

impl BulletBoard {
    /// No dimension of the board is negative.
    pub open spec fn wf(self) -> bool {
        &&& self.width >= 0
        &&& self.height >= 0
        &&& self.target_width >= 0
        &&& self.target_height >= 0
        &&& self.border >= 0
    }

    /// The board at rest at `position`: its targets are its current size and
    /// place. A negative dimension is taken as zero.
    pub fn new(
        width: i32,
        height: i32,
        position: Vec2i,
        border: i32,
        expansion_rate: i32,
        movement_rate: i32,
    ) -> (board: BulletBoard)
        ensures
            board.wf(),
            board == (BulletBoard {
                width: non_negative(width as int) as i32,
                height: non_negative(height as int) as i32,
                position,
                target_width: non_negative(width as int) as i32,
                target_height: non_negative(height as int) as i32,
                target_position: position,
                border: non_negative(border as int) as i32,
                expansion_rate,
                movement_rate,
            }),
    {
        let w: i32 = clamp_low(width);
        let h: i32 = clamp_low(height);
        BulletBoard {
            width: w,
            height: h,
            position,
            target_width: w,
            target_height: h,
            target_position: position,
            border: clamp_low(border),
            expansion_rate,
            movement_rate,
        }
    }

    /// Puts the board at a size and place at once: current and target values
    /// alike, with nothing left to animate. A negative dimension is taken as zero.
    pub fn set_absolute(&mut self, width: i32, height: i32, position: Vec2i)
        ensures
            *final(self) == (BulletBoard {
                width: non_negative(width as int) as i32,
                height: non_negative(height as int) as i32,
                position,
                target_width: non_negative(width as int) as i32,
                target_height: non_negative(height as int) as i32,
                target_position: position,
                ..*old(self)
            }),
            old(self).border >= 0 ==> final(self).wf(),
    {
        let w: i32 = clamp_low(width);
        let h: i32 = clamp_low(height);
        self.width = w;
        self.height = h;
        self.position = position;
        self.target_width = w;
        self.target_height = h;
        self.target_position = position;
    }

    /// Sets where the board moves to; its current size and place stay, and
    /// follow on the coming ticks. A negative dimension is taken as zero.
    pub fn transition_board(&mut self, layout: BoardLayout)
        ensures
            *final(self) == (BulletBoard {
                target_width: non_negative(layout.width as int) as i32,
                target_height: non_negative(layout.height as int) as i32,
                target_position: layout.position,
                ..*old(self)
            }),
            old(self).wf() ==> final(self).wf(),
    {
        self.target_width = clamp_low(layout.width);
        self.target_height = clamp_low(layout.height);
        self.target_position = layout.position;
    }

    /// The centre of the given border segment: half the board and half the
    /// border away from the board's centre, each half rounded down.
    pub open spec fn border_position_spec(self, border: BulletBoardBorder) -> Vec2i {
        let half_w = floor_div(self.width as int, 2) + floor_div(self.border as int, 2);
        let half_h = floor_div(self.height as int, 2) + floor_div(self.border as int, 2);
        match border {
            BulletBoardBorder::Right => Vec2i {
                x: saturated(self.position.x + half_w) as i32,
                y: self.position.y,
            },
            BulletBoardBorder::Left => Vec2i {
                x: saturated(self.position.x - half_w) as i32,
                y: self.position.y,
            },
            BulletBoardBorder::Top => Vec2i {
                x: self.position.x,
                y: saturated(self.position.y + half_h) as i32,
            },
            BulletBoardBorder::Bottom => Vec2i {
                x: self.position.x,
                y: saturated(self.position.y - half_h) as i32,
            },
        }
    }

    /// The size of the given border segment: as thick as the border, and as
    /// long as the board's side and the two corners.
    pub open spec fn border_scale_spec(self, border: BulletBoardBorder) -> Vec2i {
        match border {
            BulletBoardBorder::Right | BulletBoardBorder::Left => Vec2i {
                x: self.border,
                y: saturated(self.height + 2 * self.border) as i32,
            },
            BulletBoardBorder::Top | BulletBoardBorder::Bottom => Vec2i {
                x: saturated(self.width + 2 * self.border) as i32,
                y: self.border,
            },
        }
    }

    pub fn get_top(&self) -> (r: Vec2i)
        ensures
            r == self.border_position_spec(BulletBoardBorder::Top),
    {
        let reach: i64 = half(self.height) as i64 + half(self.border) as i64;
        Vec2i { x: self.position.x, y: saturate(self.position.y as i64 + reach) }
    }

    pub fn get_bottom(&self) -> (r: Vec2i)
        ensures
            r == self.border_position_spec(BulletBoardBorder::Bottom),
    {
        let reach: i64 = half(self.height) as i64 + half(self.border) as i64;
        Vec2i { x: self.position.x, y: saturate(self.position.y as i64 - reach) }
    }

    pub fn get_left(&self) -> (r: Vec2i)
        ensures
            r == self.border_position_spec(BulletBoardBorder::Left),
    {
        let reach: i64 = half(self.width) as i64 + half(self.border) as i64;
        Vec2i { x: saturate(self.position.x as i64 - reach), y: self.position.y }
    }

    pub fn get_right(&self) -> (r: Vec2i)
        ensures
            r == self.border_position_spec(BulletBoardBorder::Right),
    {
        let reach: i64 = half(self.width) as i64 + half(self.border) as i64;
        Vec2i { x: saturate(self.position.x as i64 + reach), y: self.position.y }
    }

    /// The size of the top and of the bottom segment.
    pub fn get_vert_size(&self) -> (r: Vec2i)
        ensures
            r == self.border_scale_spec(BulletBoardBorder::Top),
    {
        Vec2i { x: saturate(self.width as i64 + 2 * (self.border as i64)), y: self.border }
    }

    /// The size of the left and of the right segment.
    pub fn get_hor_size(&self) -> (r: Vec2i)
        ensures
            r == self.border_scale_spec(BulletBoardBorder::Left),
    {
        Vec2i { x: self.border, y: saturate(self.height as i64 + 2 * (self.border as i64)) }
    }

    pub fn get_border_position(&self, border: &BulletBoardBorder) -> (r: Vec2i)
        ensures
            r == self.border_position_spec(*border),
    {
        match border {
            BulletBoardBorder::Right => self.get_right(),
            BulletBoardBorder::Left => self.get_left(),
            BulletBoardBorder::Top => self.get_top(),
            BulletBoardBorder::Bottom => self.get_bottom(),
        }
    }

    pub fn get_border_scale(&self, border: &BulletBoardBorder) -> (r: Vec2i)
        ensures
            r == self.border_scale_spec(*border),
    {
        match border {
            BulletBoardBorder::Right => self.get_hor_size(),
            BulletBoardBorder::Left => self.get_hor_size(),
            BulletBoardBorder::Top => self.get_vert_size(),
            BulletBoardBorder::Bottom => self.get_vert_size(),
        }
    }

    /// How far the interior reaches to each side of the centre on the x axis:
    /// half the width less half the border, each half rounded down.
    pub open spec fn interior_reach_x(self) -> int {
        floor_div(self.width as int, 2) - floor_div(self.border as int, 2)
    }

    /// How far the interior reaches to each side of the centre on the y axis.
    pub open spec fn interior_reach_y(self) -> int {
        floor_div(self.height as int, 2) - floor_div(self.border as int, 2)
    }

    /// The place nearest to `point` at which a box that reaches `half_extents`
    /// to each side lies inside the interior.
    pub open spec fn constrain_point_spec(self, point: Vec2i, half_extents: Vec2i) -> Vec2i {
        Vec2i {
            x: saturated(
                constrain_upper_first(
                    point.x as int,
                    half_extents.x as int,
                    self.position.x as int,
                    self.interior_reach_x(),
                ),
            ) as i32,
            y: saturated(
                constrain_lower_first(
                    point.y as int,
                    half_extents.y as int,
                    self.position.y as int,
                    self.interior_reach_y(),
                ),
            ) as i32,
        }
    }

    /// Moves `point` back into the board's interior, so that a box around it
    /// that reaches `half_extents` to each side stays inside.
    ///
    /// Where the box fits into the interior, each coordinate is the nearest one
    /// that keeps it inside; a point that is inside already is returned as it is.
    pub fn constrain_point(&self, point: Vec2i, half_extents: Vec2i) -> (r: Vec2i)
        ensures
            r == self.constrain_point_spec(point, half_extents),
            half_extents.x <= self.interior_reach_x() ==> r.x == saturated(
                clamp(
                    point.x as int,
                    self.position.x - self.interior_reach_x() + half_extents.x,
                    self.position.x + self.interior_reach_x() - half_extents.x,
                ),
            ),
            half_extents.y <= self.interior_reach_y() ==> r.y == saturated(
                clamp(
                    point.y as int,
                    self.position.y - self.interior_reach_y() + half_extents.y,
                    self.position.y + self.interior_reach_y() - half_extents.y,
                ),
            ),
    {
        let reach_x: i64 = half(self.width) as i64 - half(self.border) as i64;
        let reach_y: i64 = half(self.height) as i64 - half(self.border) as i64;
        let cx: i64 = self.position.x as i64;
        let cy: i64 = self.position.y as i64;
        let hx: i64 = half_extents.x as i64;
        let hy: i64 = half_extents.y as i64;
        let mut x: i64 = point.x as i64;
        let mut y: i64 = point.y as i64;
        if x + hx > cx + reach_x {
            x = cx + reach_x - hx;
        }
        if x - hx < cx - reach_x {
            x = cx - reach_x + hx;
        }
        if y - hy < cy - reach_y {
            y = cy - reach_y + hy;
        }
        if y + hy > cy + reach_y {
            y = cy + reach_y - hy;
        }
        Vec2i { x: saturate(x), y: saturate(y) }
    }
}

/// One tick of the board: width and height step toward their targets by the
/// expansion rate, the position steps toward its target by the movement rate.
///
/// No value passes its target, and none moves by more than its rate. A value
/// that has a positive rate and is not at its target moves.
pub fn update_bullet_board(board: &mut BulletBoard)
    ensures
        old(board).expansion_rate > 0 && old(board).width != old(board).target_width
            ==> final(board).width != old(board).width,
        old(board).expansion_rate > 0 && old(board).height != old(board).target_height
            ==> final(board).height != old(board).height,
        old(board).movement_rate > 0 && old(board).position != old(board).target_position
            ==> final(board).position != old(board).position,
        final(board).width == old(board).width + move_towards_spec(
            old(board).width as int,
            old(board).target_width as int,
            old(board).expansion_rate as int,
        ),
        final(board).height == old(board).height + move_towards_spec(
            old(board).height as int,
            old(board).target_height as int,
            old(board).expansion_rate as int,
        ),
        final(board).position.x == old(board).position.x + move_towards_vec_spec(
            old(board).position,
            old(board).target_position,
            old(board).movement_rate as int,
        ).x,
        final(board).position.y == old(board).position.y + move_towards_vec_spec(
            old(board).position,
            old(board).target_position,
            old(board).movement_rate as int,
        ).y,
        final(board).target_width == old(board).target_width,
        final(board).target_height == old(board).target_height,
        final(board).target_position == old(board).target_position,
        final(board).border == old(board).border,
        final(board).expansion_rate == old(board).expansion_rate,
        final(board).movement_rate == old(board).movement_rate,
        between(
            old(board).width as int,
            final(board).width as int,
            old(board).target_width as int,
        ),
        between(
            old(board).height as int,
            final(board).height as int,
            old(board).target_height as int,
        ),
        between(
            old(board).position.x as int,
            final(board).position.x as int,
            old(board).target_position.x as int,
        ),
        between(
            old(board).position.y as int,
            final(board).position.y as int,
            old(board).target_position.y as int,
        ),
        magnitude(final(board).width - old(board).width) <= non_negative(
            old(board).expansion_rate as int,
        ),
        magnitude(final(board).height - old(board).height) <= non_negative(
            old(board).expansion_rate as int,
        ),
        squared_length(
            final(board).position.x - old(board).position.x,
            final(board).position.y - old(board).position.y,
        ) <= non_negative(old(board).movement_rate as int) * non_negative(
            old(board).movement_rate as int,
        ),
        old(board).wf() ==> final(board).wf(),
{
    let width: i32 = move_towards(board.width, board.target_width, board.expansion_rate);
    let height: i32 = move_towards(board.height, board.target_height, board.expansion_rate);
    let step: Vec2i = move_towards_vec(board.position, board.target_position, board.movement_rate);
    proof {
        lemma_move_towards_vec(
            board.position,
            board.target_position,
            board.movement_rate as int,
        );
    }
    board.width = width;
    board.height = height;
    board.position = Vec2i { x: board.position.x + step.x, y: board.position.y + step.y };
}

} // verus!
