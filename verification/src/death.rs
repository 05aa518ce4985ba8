//! The defeat effect: the opponent's sprite bursts into one piece of debris
//! for each pixel that is not transparent.

use vstd::prelude::*;
use rand::Rng;
use crate::fixed::{lemma_product_bound, saturate, saturated};
use crate::geometry::{lemma_scaled_offset, squared_length, Vec2i};
use crate::physics::PhysicsComponent;

verus! {

/// The speed of a piece of debris, in length units per second.
pub const DEBRIS_SPEED: i32 = 2_000;

/// The bounds of the random direction of a piece of debris: sideways from
/// `-DIRECTION_SPREAD` up to `DIRECTION_SPREAD`, upward from 0 up to
/// `DIRECTION_SPREAD`, the upper bounds excluded.
pub const DIRECTION_SPREAD: i32 = 1_000;

/// The transparency of a sprite: one alpha value for each pixel, row by row
/// from the top row down.
pub struct SpriteMask {
    pub width: u32,
    pub height: u32,
    pub alpha: Vec<u8>,
}

impl SpriteMask {
    /// There is one alpha value for each pixel.
    pub open spec fn wf(&self) -> bool {
        self.alpha@.len() == self.width * self.height
    }

    /// The pixel in column `x` of the row `y`, rows counted from the bottom
    /// row up, is not transparent.
    pub open spec fn opaque_at(&self, x: int, y: int) -> bool {
        self.alpha@[(self.height - y - 1) * self.width + x] > 0
    }

    /// The pixel that the scan reaches at step `n`: it goes through the
    /// columns from the left, and through each column from the bottom up.
    pub open spec fn scan_pixel(&self, n: int) -> (int, int) {
        (n / (self.height as int), n % (self.height as int))
    }

    /// The pixels that are not transparent among the first `n` of the scan,
    /// in the order of the scan.
    pub open spec fn scanned(&self, n: nat) -> Seq<(int, int)>
        decreases n,
    {
        if n == 0 {
            Seq::empty()
        } else {
            let rest = self.scanned((n - 1) as nat);
            let (x, y) = self.scan_pixel(n - 1);
            if self.opaque_at(x, y) {
                rest.push((x, y))
            } else {
                rest
            }
        }
    }

    /// The pixels that are not transparent, in the order of the scan.
    pub open spec fn opaque_pixels(&self) -> Seq<(int, int)> {
        self.scanned((self.width * self.height) as nat)
    }

    /// The mask of a sprite of the given size, where `alpha` holds one value
    /// for each pixel.
    pub fn new(width: u32, height: u32, alpha: Vec<u8>) -> (mask: Option<SpriteMask>)
        ensures
            mask is Some <==> alpha@.len() == width * height,
            mask matches Some(m) ==> m.wf() && m.width == width && m.height == height && m.alpha@
                == alpha@,
    {
        proof {
            lemma_product_bound(width as int, height as int, 0xffff_ffff, 0xffff_ffff);
        }
        let pixels: u64 = (width as u64) * (height as u64);
        if alpha.len() as u64 == pixels {
            Some(SpriteMask { width, height, alpha })
        } else {
            None
        }
    }

    /// Whether the pixel in column `x` of the row `y`, rows counted from the
    /// bottom row up, is not transparent.
    pub fn is_opaque(&self, x: u32, y: u32) -> (opaque: bool)
        requires
            self.wf(),
            x < self.width,
            y < self.height,
        ensures
            opaque == self.opaque_at(x as int, y as int),
    {
        let row: u64 = (self.height - y - 1) as u64;
        let w: u64 = self.width as u64;
        let len: usize = self.alpha.len();
        proof {
            let h = self.height as int;
            let wi = self.width as int;
            lemma_product_bound(row as int, wi, h - 1, wi);
            assert((h - 1) * wi + wi == wi * h) by (nonlinear_arith);
            assert(len == wi * h);
        }
        let index: u64 = row * w + x as u64;
        self.alpha[index as usize] > 0
    }
}

/// The piece of debris for the pixel `(x, y)` of a sprite of the given size
/// whose centre is at `centre`, flying in the direction `(v_x, v_y)`.
///
/// It starts at the centre of its pixel. Its velocity is the direction that
/// was drawn, brought to the speed of debris with each coordinate rounded
/// toward zero; where no direction was drawn, it flies to the right.
pub open spec fn debris_spec(
    centre: Vec2i,
    width: int,
    height: int,
    x: int,
    y: int,
    v_x: int,
    v_y: int,
) -> PhysicsComponent {
    PhysicsComponent {
        position: Vec2i {
            x: saturated(centre.x - 500 * width + 500 + 1000 * x) as i32,
            y: saturated(centre.y - 500 * height + 500 + 1000 * y) as i32,
        },
        velocity: if v_x == 0 && v_y == 0 {
            Vec2i { x: DEBRIS_SPEED, y: 0 }
        } else {
            (Vec2i { x: v_x as i32, y: v_y as i32 }).with_length_spec(DEBRIS_SPEED as int)
        },
        half_hitbox: Vec2i { x: 0, y: 0 },
        half_size: Vec2i { x: 0, y: 0 },
    }
}

/// The velocity `v` has the speed of debris: it is never faster, and slower
/// by less than two units.
pub open spec fn has_debris_speed(v: Vec2i) -> bool {
    &&& squared_length(v.x as int, v.y as int) <= DEBRIS_SPEED * DEBRIS_SPEED
    &&& squared_length(v.x as int, v.y as int) >= (DEBRIS_SPEED - 2) * (DEBRIS_SPEED - 2)
}

/// Every piece of debris has the speed of debris, whatever direction was
/// drawn for it, and keeps the side of each coordinate of that direction.
pub proof fn lemma_debris_speed(
    centre: Vec2i,
    width: int,
    height: int,
    x: int,
    y: int,
    v_x: int,
    v_y: int,
)
    requires
        i32::MIN <= v_x <= i32::MAX,
        i32::MIN <= v_y <= i32::MAX,
    ensures
        has_debris_speed(debris_spec(centre, width, height, x, y, v_x, v_y).velocity),
        v_x >= 0 ==> debris_spec(centre, width, height, x, y, v_x, v_y).velocity.x >= 0,
        v_x < 0 ==> debris_spec(centre, width, height, x, y, v_x, v_y).velocity.x <= 0,
        v_y >= 0 ==> debris_spec(centre, width, height, x, y, v_x, v_y).velocity.y >= 0,
        v_y <= 0 ==> debris_spec(centre, width, height, x, y, v_x, v_y).velocity.y <= 0,
{
    if v_x == 0 && v_y == 0 {
        assert(squared_length(2000, 0) == 4_000_000) by (nonlinear_arith);
    } else {
        lemma_scaled_offset(v_x, v_y, DEBRIS_SPEED as int);
    }
}

/// `body` is the piece of debris for the given pixel, with some direction
/// that can be drawn.
pub open spec fn is_debris_of(
    body: PhysicsComponent,
    centre: Vec2i,
    width: int,
    height: int,
    pixel: (int, int),
) -> bool {
    exists|v_x: int, v_y: int|
        {
            &&& -DIRECTION_SPREAD <= v_x < DIRECTION_SPREAD
            &&& 0 <= v_y < DIRECTION_SPREAD
            &&& body == #[trigger] debris_spec(
                centre,
                width,
                height,
                pixel.0,
                pixel.1,
                v_x,
                v_y,
            )
        }
}

/// The piece of debris for one pixel of the sprite, with the direction that
/// was drawn for it.
pub fn debris_body(
    centre: Vec2i,
    width: u32,
    height: u32,
    x: u32,
    y: u32,
    v_x: i32,
    v_y: i32,
) -> (body: PhysicsComponent)
    ensures
        body == debris_spec(
            centre,
            width as int,
            height as int,
            x as int,
            y as int,
            v_x as int,
            v_y as int,
        ),
        has_debris_speed(body.velocity),
{
    proof {
        lemma_debris_speed(
            centre,
            width as int,
            height as int,
            x as int,
            y as int,
            v_x as int,
            v_y as int,
        );
    }
    let px: i64 = centre.x as i64 - 500 * (width as i64) + 500 + 1000 * (x as i64);
    let py: i64 = centre.y as i64 - 500 * (height as i64) + 500 + 1000 * (y as i64);
    let velocity: Vec2i = if v_x == 0 && v_y == 0 {
        Vec2i { x: DEBRIS_SPEED, y: 0 }
    } else {
        (Vec2i { x: v_x, y: v_y }).with_length(DEBRIS_SPEED)
    };
    PhysicsComponent {
        position: Vec2i { x: saturate(px), y: saturate(py) },
        velocity,
        half_hitbox: Vec2i::zero(),
        half_size: Vec2i::zero(),
    }
}

/// Draws a number from `low` up to, but not including, `high`, with
/// `Rng::gen_range` of the rand crate on the generator of the running thread.
/// Nothing is known of the number but that it lies in that range. An empty
/// range, on which the call panics, is left out.
#[verifier::external_body]
fn random_in(low: i32, high: i32) -> (r: i32)
    requires
        low < high,
    ensures
        low <= r < high,
{
    rand::thread_rng().gen_range(low..high)
}

/// The debris of the defeated opponent: one piece for each pixel of its
/// sprite that is not transparent, in the order of the scan, each at the
/// centre of its pixel and flying at the speed of debris in a direction drawn
/// at random, sideways or upward.
pub fn kill_enemy_visual(centre: Vec2i, mask: &SpriteMask) -> (debris: Vec<PhysicsComponent>)
    requires
        mask.wf(),
    ensures
        debris@.len() == mask.opaque_pixels().len(),
        forall|k: int|
            0 <= k < debris@.len() ==> is_debris_of(
                #[trigger] debris@[k],
                centre,
                mask.width as int,
                mask.height as int,
                mask.opaque_pixels()[k],
            ),
        forall|k: int|
            0 <= k < debris@.len() ==> has_debris_speed((#[trigger] debris@[k]).velocity)
                && debris@[k].velocity.y >= 0,
{
    let width: u32 = mask.width;
    let height: u32 = mask.height;
    let mut debris: Vec<PhysicsComponent> = Vec::new();
    let mut x: u32 = 0;
    proof {
        assert(0 * (height as int) == 0);
    }
    while x < width
        invariant
            mask.wf(),
            width == mask.width,
            height == mask.height,
            x <= width,
            x * height >= 0,
            debris@.len() == mask.scanned((x * height) as nat).len(),
            forall|k: int|
                0 <= k < debris@.len() ==> is_debris_of(
                    #[trigger] debris@[k],
                    centre,
                    width as int,
                    height as int,
                    mask.scanned((x * height) as nat)[k],
                ),
            forall|k: int|
                0 <= k < debris@.len() ==> has_debris_speed((#[trigger] debris@[k]).velocity)
                    && debris@[k].velocity.y >= 0,
        decreases width - x,
    {
        let mut y: u32 = 0;
        while y < height
            invariant
                mask.wf(),
                width == mask.width,
                height == mask.height,
                x < width,
                y <= height,
                x * height >= 0,
                debris@.len() == mask.scanned((x * height + y) as nat).len(),
                forall|k: int|
                    0 <= k < debris@.len() ==> is_debris_of(
                        #[trigger] debris@[k],
                        centre,
                        width as int,
                        height as int,
                        mask.scanned((x * height + y) as nat)[k],
                    ),
                forall|k: int|
                    0 <= k < debris@.len() ==> has_debris_speed((#[trigger] debris@[k]).velocity)
                        && debris@[k].velocity.y >= 0,
            decreases height - y,
        {
            let ghost n: int = x * height + y;
            let ghost before = mask.scanned(n as nat);
            let ghost after = mask.scanned((n + 1) as nat);
            proof {
                lemma_scan_pixel(mask, x as int, y as int);
                assert(mask.scan_pixel(n) == (x as int, y as int));
                assert(x * height + (y + 1) == n + 1);
            }
            if mask.is_opaque(x, y) {
                let v_x: i32 = random_in(-DIRECTION_SPREAD, DIRECTION_SPREAD);
                let v_y: i32 = random_in(0, DIRECTION_SPREAD);
                let body: PhysicsComponent = debris_body(centre, width, height, x, y, v_x, v_y);
                let ghost old_debris = debris@;
                debris.push(body);
                proof {
                    lemma_debris_speed(
                        centre,
                        width as int,
                        height as int,
                        x as int,
                        y as int,
                        v_x as int,
                        v_y as int,
                    );
                    assert forall|k: int| 0 <= k < debris@.len() implies has_debris_speed(
                        (#[trigger] debris@[k]).velocity,
                    ) && debris@[k].velocity.y >= 0 by {
                        if k < old_debris.len() {
                            assert(debris@[k] == old_debris[k]);
                        }
                    }
                    assert(after == before.push((x as int, y as int)));
                    assert forall|k: int| 0 <= k < debris@.len() implies is_debris_of(
                        #[trigger] debris@[k],
                        centre,
                        width as int,
                        height as int,
                        after[k],
                    ) by {
                        if k < old_debris.len() {
                            assert(debris@[k] == old_debris[k]);
                            assert(after[k] == before[k]);
                        } else {
                            assert(after[k] == (x as int, y as int));
                            assert(body == debris_spec(
                                centre,
                                width as int,
                                height as int,
                                x as int,
                                y as int,
                                v_x as int,
                                v_y as int,
                            ));
                        }
                    }
                }
            } else {
                proof {
                    assert(after == before);
                }
            }
            y = y + 1;
        }
        proof {
            assert(x * height + height == (x + 1) * height) by (nonlinear_arith);
        }
        x = x + 1;
    }
    debris
}

/// Step `x * height + y` of the scan reaches the pixel `(x, y)`.
proof fn lemma_scan_pixel(mask: &SpriteMask, x: int, y: int)
    requires
        0 <= x,
        0 <= y < mask.height,
    ensures
        x * mask.height + y >= 0,
        mask.scan_pixel(x * mask.height + y) == (x, y),
{
    let h = mask.height as int;
    assert(x * h >= 0) by (nonlinear_arith)
        requires
            x >= 0,
            h >= 0,
    ;
    crate::fixed::lemma_quotient_is(x * h + y, h, x, y);
}

} // verus!
