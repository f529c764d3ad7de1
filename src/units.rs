//! Fixed-point units of the game world.
//!
//! Time is counted in microseconds, velocities in millionths of a world unit
//! per second, and positions in trillionths (10^-12) of a world unit, so that
//! a velocity times an elapsed time is a position with no rounding, and an
//! acceleration in world units per second squared adds to a velocity exactly.
//! Angles are counted in thousandths of a degree.
use vstd::prelude::*;

verus! {

/// One world unit, in position steps.
pub const UNIT: i64 = 1_000_000_000_000;

/// One world unit per second, in velocity steps.
pub const SPEED_UNIT: i64 = 1_000_000;

/// One degree, in angle steps.
pub const DEGREE: i64 = 1_000;

/// Downward acceleration: -982 world units per second squared, which is
/// also -982 velocity steps per microsecond.
pub const GRAVITY: i64 = -982;

/// Velocity given by a jump: 200 world units per second upward.
pub const JUMP_VELOCITY: i64 = 200_000_000;

/// Fastest fall that gravity alone reaches: 400 world units per second.
pub const TERMINAL_VELOCITY: i64 = -400_000_000;

/// Velocity given on death: twice a jump.
pub const DEATH_VELOCITY: i64 = 400_000_000;

/// Horizontal speed of the scenery: 100 world units per second leftward.
pub const SCROLL_SPEED: i64 = -100_000_000;

/// Longest frame that a step of the world takes: a quarter of a second,
/// the most that the frame clock reports. Frames no longer than this keep
/// the scenery within a fixed reach of the origin, however long a run lasts.
pub const MAX_FRAME: u32 = 250_000;

} // verus!
