//! The scrolling scenery: a looping background strip and the ring of pipe
//! pairs that the player flies through.
use vstd::prelude::*;
use crate::collision::Aabb;
use crate::units::{SCROLL_SPEED, UNIT};

verus! {

/// Width of a background tile: 143 world units.
pub const TILE_WIDTH: i64 = 143 * UNIT;

/// Horizontal distance between neighbouring pipe pairs: 160 world units.
pub const PIPE_TO_PIPE_SPACE: i64 = 160 * UNIT;

/// Number of pipe pairs in the ring.
pub const PIPE_COUNT: usize = 4;

/// Distance a pipe pair jumps forward when it is recycled: the whole ring.
pub const PIPE_SCROLL_BACK: i64 = 640 * UNIT;

/// A pipe pair whose center is left of this is recycled: 288 world units
/// left of the origin.
pub const PIPE_EXIT_X: i64 = -288 * UNIT;

/// Where the first pipe pair of a new run stands: 144 world units right of
/// the origin.
pub const FIRST_PIPE_X: i64 = 144 * UNIT;

/// Lowest gap offset, in world units.
pub const MIN_GAP_OFFSET: i64 = 48;

/// Highest gap offset, in world units.
pub const MAX_GAP_OFFSET: i64 = 154;

/// Vertical space between the two pipes of a pair: 42 world units.
pub const PIPE_SPACE: i64 = 42 * UNIT;

/// Half-width of a pipe's box: 13 world units.
pub const PIPE_HALF_WIDTH: i64 = 13 * UNIT;

/// Half-height of a pipe's box: 80 world units.
pub const PIPE_HALF_HEIGHT: i64 = 80 * UNIT;

/// Offset of the bottom pipe's center below the top pipe's.
pub const BOTTOM_PIPE_OFFSET: i64 = -(160 * UNIT + PIPE_SPACE);

/// Positions that the scroll arithmetic may take in without overflow.
pub const POSITION_LIMIT: i64 = 0x4000_0000_0000_0000;

/// A gap offset that a new or recycled pipe pair may draw, in world units.
pub open spec fn valid_gap(gap: int) -> bool {
    MIN_GAP_OFFSET <= gap <= MAX_GAP_OFFSET
}

/// `x` moved by the scroll speed for `dt` microseconds.
pub open spec fn scrolled(x: int, dt: int) -> int {
    x + SCROLL_SPEED * dt
}

/// The background's position after `dt` microseconds: it scrolls, and once
/// past one tile width left of the origin it moves forward by exactly one
/// tile width.
pub open spec fn scrolled_background(x: int, dt: int) -> int {
    let m = scrolled(x, dt);
    if m < -TILE_WIDTH {
        m + TILE_WIDTH
    } else {
        m
    }
}

/// Whether a pipe pair at `x` is recycled after `dt` microseconds.
pub open spec fn pipe_wraps(x: int, dt: int) -> bool {
    scrolled(x, dt) < PIPE_EXIT_X
}

/// A pipe pair's position after `dt` microseconds: it scrolls, and once
/// past the exit it moves forward by exactly the whole ring.
pub open spec fn scrolled_pipe_x(x: int, dt: int) -> int {
    if pipe_wraps(x, dt) {
        scrolled(x, dt) + PIPE_SCROLL_BACK
    } else {
        scrolled(x, dt)
    }
}

/// Draws a gap offset, uniformly from `lo` to `hi` inclusive.
///
/// Relies on `rand::thread_rng` and `rand::Rng::gen_range` (rand 0.8) over an
/// inclusive range, which returns a value in that range and panics only on
/// an empty one.
#[verifier::external_body]
pub(crate) fn random_pipe_height(lo: i64, hi: i64) -> (r: i64)
    requires
        lo <= hi,
    ensures
        lo <= r <= hi,
{
    rand::Rng::gen_range(&mut rand::thread_rng(), lo..=hi)
}

/// The background strip: a tile at `x` and a second one a tile width to its
/// right, in position steps.
#[derive(Clone, Copy, Debug, PartialEq, Eq)]
pub struct Background {
    pub x: i64,
}

impl Background {
    /// Left edges of the two tiles; they always lie one tile width apart.
    pub open spec fn tiles(self) -> (int, int) {
        (self.x as int, self.x + TILE_WIDTH)
    }

    pub fn new() -> (r: Background)
        ensures
            r.x == 0,
    {
        Background { x: 0 }
    }

    /// Positions of the two tiles.
    pub fn tile_positions(&self) -> (r: (i64, i64))
        requires
            self.x <= POSITION_LIMIT,
        ensures
            r.0 == self.tiles().0,
            r.1 == self.tiles().1,
    {
        (self.x, self.x + TILE_WIDTH)
    }

    /// Scrolls the strip for `dt` microseconds, wrapping it by one tile
    /// width once it has moved a tile width past the origin.
    pub fn scroll_backgrounds(&mut self, dt: u32)
        requires
            -POSITION_LIMIT <= old(self).x <= POSITION_LIMIT,
        ensures
            final(self).x == scrolled_background(old(self).x as int, dt as int),
    {
        assert(0 <= dt as int * 100_000_000 <= 0xffff_ffff * 100_000_000) by (nonlinear_arith);
        let m = self.x + SCROLL_SPEED * dt as i64;
        self.x = if m < -TILE_WIDTH {
            m + TILE_WIDTH
        } else {
            m
        };
    }
}

/// A pipe pair: `x` drives the scroll, `y` is the gap offset, in position
/// steps. The top pipe is centered on the pair, the bottom one lies
/// `BOTTOM_PIPE_OFFSET` below it.
#[derive(Clone, Copy, Debug, PartialEq, Eq)]
pub struct ObstacleGroup {
    pub x: i64,
    pub y: i64,
}

/// The box of a pipe centered at the given point.
pub open spec fn pipe_box(x: int, y: int) -> Aabb {
    Aabb { center_x: x as i64, center_y: y as i64, half_x: PIPE_HALF_WIDTH, half_y: PIPE_HALF_HEIGHT }
}

impl ObstacleGroup {
    pub open spec fn top_box(self) -> Aabb {
        pipe_box(self.x as int, self.y as int)
    }

    pub open spec fn bottom_box(self) -> Aabb {
        pipe_box(self.x as int, self.y + BOTTOM_PIPE_OFFSET)
    }

    /// The gap offset is a whole number of world units in the allowed range.
    pub open spec fn wf(self) -> bool {
        &&& self.y % UNIT == 0
        &&& valid_gap(self.y as int / UNIT as int)
    }

    /// A pair at `x` whose gap offset is `gap` world units.
    pub fn new(x: i64, gap: i64) -> (r: ObstacleGroup)
        requires
            valid_gap(gap as int),
        ensures
            r.wf(),
            r.x == x,
            r.y == gap * UNIT,
    {
        ObstacleGroup { x, y: gap * UNIT }
    }

    /// The top pipe's box.
    pub fn top_pipe(&self) -> (r: Aabb)
        ensures
            r == self.top_box(),
    {
        Aabb::new(self.x, self.y, PIPE_HALF_WIDTH, PIPE_HALF_HEIGHT)
    }

    /// The bottom pipe's box.
    pub fn bottom_pipe(&self) -> (r: Aabb)
        requires
            self.wf(),
        ensures
            r == self.bottom_box(),
    {
        Aabb::new(self.x, self.y + BOTTOM_PIPE_OFFSET, PIPE_HALF_WIDTH, PIPE_HALF_HEIGHT)
    }

    /// Scrolls the pair for `dt` microseconds. Once it has passed the exit
    /// it moves forward by the whole ring and takes `gap` (in world units)
    /// as its new gap offset.
    pub fn scroll_pipes(&mut self, dt: u32, gap: i64)
        requires
            -POSITION_LIMIT <= old(self).x <= POSITION_LIMIT,
            valid_gap(gap as int),
        ensures
            final(self).x == scrolled_pipe_x(old(self).x as int, dt as int),
            final(self).y == if pipe_wraps(old(self).x as int, dt as int) {
                gap * UNIT
            } else {
                old(self).y as int
            },
    {
        assert(0 <= dt as int * 100_000_000 <= 0xffff_ffff * 100_000_000) by (nonlinear_arith);
        let m = self.x + SCROLL_SPEED * dt as i64;
        if m < PIPE_EXIT_X {
            self.x = m + PIPE_SCROLL_BACK;
            self.y = gap * UNIT;
        } else {
            self.x = m;
        }
    }
}

} // verus!
