//! The player: vertical motion under gravity, jumps, and the tilt that
//! follows its velocity.
use vstd::prelude::*;
use crate::animation::{Animation, Frame};
use crate::collision::Aabb;
use crate::units::{DEGREE, JUMP_VELOCITY, TERMINAL_VELOCITY, UNIT};

verus! {

/// Sprite of the bird with its wings up.
pub const SPRITE_BIRD_UP: usize = 1;

/// Sprite of the bird with its wings level.
pub const SPRITE_BIRD_MID: usize = 2;

/// Sprite of the bird with its wings down.
pub const SPRITE_BIRD_DOWN: usize = 3;

/// How long each frame of the flap is shown: a fifth of a second.
pub const FLAP_FRAME: u32 = 200_000;

/// Half-width of the player's box: 6 world units.
pub const PLAYER_HALF_WIDTH: i64 = 6 * UNIT;

/// Half-height of the player's box: 4 world units.
pub const PLAYER_HALF_HEIGHT: i64 = 4 * UNIT;

/// Most nose-down tilt, in angle steps.
pub const MIN_ROTATION: i64 = -30 * DEGREE;

/// Most nose-up tilt, in angle steps.
pub const MAX_ROTATION: i64 = 90 * DEGREE;

pub open spec fn clamp(x: int, lo: int, hi: int) -> int {
    if x < lo {
        lo
    } else if x > hi {
        hi
    } else {
        x
    }
}

/// `x` held to the range of `i64`.
pub open spec fn saturate(x: int) -> int {
    clamp(x, i64::MIN as int, i64::MAX as int)
}

/// Velocity after `dt` microseconds of `gravity`, never below terminal
/// velocity.
pub open spec fn fallen_velocity(velocity: int, gravity: int, dt: int) -> int {
    let v = velocity + gravity * dt;
    if v < TERMINAL_VELOCITY {
        TERMINAL_VELOCITY as int
    } else {
        v
    }
}

/// Height after `dt` microseconds at `velocity`, held to what a position
/// can represent.
pub open spec fn moved_height(y: int, velocity: int, dt: int) -> int {
    saturate(y + velocity * dt)
}

/// The tilt that a velocity calls for: the velocity is placed in [0, 1]
/// between terminal and jump velocity, mapped onto -90..90 degrees, and the
/// angle is held to -30..90 degrees.
pub open spec fn target_rotation(velocity: int) -> int {
    let n = clamp(velocity, TERMINAL_VELOCITY as int, JUMP_VELOCITY as int) - TERMINAL_VELOCITY;
    let angle = -90 * DEGREE + n * (180 * DEGREE) / (JUMP_VELOCITY - TERMINAL_VELOCITY);
    clamp(angle, MIN_ROTATION as int, MAX_ROTATION as int)
}

/// The frames of the flap: wings down, level, up.
pub open spec fn flap_frames() -> Seq<Frame> {
    seq![
        Frame { index: SPRITE_BIRD_DOWN, duration: FLAP_FRAME },
        Frame { index: SPRITE_BIRD_MID, duration: FLAP_FRAME },
        Frame { index: SPRITE_BIRD_UP, duration: FLAP_FRAME },
    ]
}

/// The player. `x` and `y` are in position steps, `velocity` (vertical
/// only) in velocity steps, `rotation` in angle steps.
#[derive(Clone, Debug)]
pub struct Player {
    pub x: i64,
    pub y: i64,
    pub velocity: i64,
    pub rotation: i64,
    pub collider: Aabb,
    pub animation: Animation,
}

impl Player {
    pub open spec fn wf(&self) -> bool {
        &&& self.animation.wf()
        &&& self.collider.wf()
        &&& MIN_ROTATION <= self.rotation <= MAX_ROTATION
    }

    /// A player as a new run starts it: at the origin, at rest, level, and
    /// showing the last frame of a flap that does not repeat.
    pub open spec fn is_fresh(&self) -> bool {
        &&& self.x == 0
        &&& self.y == 0
        &&& self.velocity == 0
        &&& self.rotation == 0
        &&& self.collider == Aabb {
            center_x: 0,
            center_y: 0,
            half_x: PLAYER_HALF_WIDTH,
            half_y: PLAYER_HALF_HEIGHT,
        }
        &&& self.animation.frames@ == flap_frames()
        &&& self.animation.frame == 2
        &&& self.animation.elapsed == 0
        &&& !self.animation.repeat
    }

    pub fn new() -> (r: Player)
        ensures
            r.wf(),
            r.is_fresh(),
    {
        let frames = vec![
            Frame { index: SPRITE_BIRD_DOWN, duration: FLAP_FRAME },
            Frame { index: SPRITE_BIRD_MID, duration: FLAP_FRAME },
            Frame { index: SPRITE_BIRD_UP, duration: FLAP_FRAME },
        ];
        assert(frames@ =~= flap_frames());
        Player {
            x: 0,
            y: 0,
            velocity: 0,
            rotation: 0,
            collider: Aabb::new(0, 0, PLAYER_HALF_WIDTH, PLAYER_HALF_HEIGHT),
            animation: Animation { elapsed: 0, repeat: false, frame: 2, frames },
        }
    }

    /// A jump: the velocity becomes the jump velocity and the flap starts
    /// over.
    pub fn input(&mut self)
        requires
            old(self).wf(),
        ensures
            final(self).wf(),
            final(self).velocity == JUMP_VELOCITY,
            final(self).animation.frame == 0,
            final(self).animation.elapsed == old(self).animation.elapsed,
            final(self).animation.repeat == old(self).animation.repeat,
            final(self).animation.frames@ == old(self).animation.frames@,
            final(self).x == old(self).x,
            final(self).y == old(self).y,
            final(self).rotation == old(self).rotation,
            final(self).collider == old(self).collider,
    {
        self.velocity = JUMP_VELOCITY;
        self.animation.trigger_jump_animation();
    }

    /// Gravity acts for `dt` microseconds: the velocity gains `gravity * dt`
    /// and is held at or above terminal velocity, then the height moves by
    /// the new velocity over `dt`.
    pub fn apply_gravity(&mut self, gravity: i64, dt: u32)
        requires
            gravity <= 0,
        ensures
            final(self).velocity == fallen_velocity(old(self).velocity as int, gravity as int, dt as int),
            final(self).velocity >= TERMINAL_VELOCITY,
            final(self).y == moved_height(old(self).y as int, final(self).velocity as int, dt as int),
            final(self).x == old(self).x,
            final(self).rotation == old(self).rotation,
            final(self).collider == old(self).collider,
            final(self).animation == old(self).animation,
    {
        let g = gravity as i128;
        let t = dt as i128;
        assert(-0x8000_0000_0000_0000_0000_0000 <= g * t <= 0) by (nonlinear_arith)
            requires
                -0x8000_0000_0000_0000 <= g <= 0,
                0 <= t <= 0xffff_ffff,
        ;
        let mut v: i128 = self.velocity as i128 + g * t;
        if v < TERMINAL_VELOCITY as i128 {
            v = TERMINAL_VELOCITY as i128;
        }
        assert(TERMINAL_VELOCITY <= v <= i64::MAX);
        let v64 = v as i64;
        assert(-0x8000_0000_0000_0000_0000_0000 <= v * t <= 0x8000_0000_0000_0000_0000_0000) by (
        nonlinear_arith)
            requires
                -0x8000_0000_0000_0000 <= v <= 0x8000_0000_0000_0000,
                0 <= t <= 0xffff_ffff,
        ;
        let step = v * t;
        let y = self.y as i128 + step;
        let y64: i64 = if y < i64::MIN as i128 {
            i64::MIN
        } else if y > i64::MAX as i128 {
            i64::MAX
        } else {
            y as i64
        };
        self.velocity = v64;
        self.y = y64;
    }

    /// The tilt moves half-way toward the one that the velocity calls for.
    pub fn apply_rotation(&mut self)
        requires
            old(self).wf(),
        ensures
            final(self).wf(),
            final(self).rotation == (old(self).rotation + target_rotation(
                old(self).velocity as int,
            )) / 2,
            final(self).x == old(self).x,
            final(self).y == old(self).y,
            final(self).velocity == old(self).velocity,
            final(self).collider == old(self).collider,
            final(self).animation == old(self).animation,
    {
        let v: i64 = if self.velocity < TERMINAL_VELOCITY {
            TERMINAL_VELOCITY
        } else if self.velocity > JUMP_VELOCITY {
            JUMP_VELOCITY
        } else {
            self.velocity
        };
        let n = (v - TERMINAL_VELOCITY) as u64;
        let scaled: u64 = n * (180 * DEGREE as u64) / ((JUMP_VELOCITY - TERMINAL_VELOCITY) as u64);
        assert(scaled <= 180 * DEGREE) by (nonlinear_arith)
            requires
                n <= JUMP_VELOCITY - TERMINAL_VELOCITY,
                scaled == n * (180 * DEGREE) / (JUMP_VELOCITY - TERMINAL_VELOCITY),
        ;
        let angle: i64 = -90 * DEGREE + scaled as i64;
        let target: i64 = if angle < MIN_ROTATION {
            MIN_ROTATION
        } else if angle > MAX_ROTATION {
            MAX_ROTATION
        } else {
            angle
        };
        assert(target == target_rotation(self.velocity as int));
        let shifted = (self.rotation - MIN_ROTATION + target - MIN_ROTATION) as u64;
        let r: i64 = (shifted / 2) as i64 + MIN_ROTATION;
        assert(r == (self.rotation + target) / 2);
        self.rotation = r;
    }
}

/// Gravity never takes the velocity below terminal velocity; above it, the
/// velocity is the old one plus gravity times the elapsed time.
pub proof fn lemma_fall_is_capped(velocity: int, gravity: int, dt: int)
    requires
        gravity <= 0,
        dt >= 0,
    ensures
        fallen_velocity(velocity, gravity, dt) >= TERMINAL_VELOCITY,
        fallen_velocity(velocity, gravity, dt) == if velocity + gravity * dt < TERMINAL_VELOCITY {
            TERMINAL_VELOCITY as int
        } else {
            velocity + gravity * dt
        },
{
}

} // verus!
