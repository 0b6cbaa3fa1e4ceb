use vstd::prelude::*;

verus! {

/// Steps of length in one world unit.
pub const STEPS_PER_UNIT: i64 = 60;

/// Width and height of the crow's hit-box (60 units).
pub const CROW_SIZE: i64 = 3600;

/// Vertical speed, in units per second, given by a wing beat.
pub const JUMP_SPEED: i64 = 200;

/// Upward nudge applied on the tick of a wing beat (10 units).
pub const JUMP_NUDGE: i64 = 600;

/// Loss of vertical speed per airborne tick.
pub const GRAVITY_DECAY: i64 = 5;

/// Horizontal move per tick while walking (200 units per second).
pub const RUN_STEP: i64 = 200;

/// The crow's horizontal moves are clamped to this bound on either side of
/// the origin (1500 units).
pub const WORLD_EDGE: i64 = 90000;

/// Horizontal distance under which a walker chases the crow (350 units).
pub const CHASE_RADIUS: i64 = 21000;

/// Horizontal move per tick of a chasing walker (25 units per second).
pub const CHASE_STEP: i64 = 25;

/// Where the crow appears at start-up and after a restart: (0, 150) units.
pub const SPAWN_X: i64 = 0;

pub const SPAWN_Y: i64 = 9000;

/// Side of a jewel's and of a walker's box (64 units).
pub const PICKUP_SIZE: i64 = 3840;

/// Height at which jewels and walkers stand (20 units).
pub const GROUND_LINE: i64 = 1200;

/// Jewels appear at a whole number of units in `[-1500, 1500)`.
pub const JEWEL_MIN_UNITS: i64 = -1500;

pub const JEWEL_MAX_UNITS: i64 = 1500;

/// Walkers start at a distance, in whole units, in `[300, 1500)` from the
/// origin, on either side.
pub const WALKER_MIN_UNITS: i64 = 300;

pub const WALKER_MAX_UNITS: i64 = 1500;

/// Number of walkers in a new world.
pub const WALKER_COUNT: usize = 10;

/// Frames in a walker's sprite sheet.
pub const WALKER_FRAMES: usize = 4;

/// Interval of the animation clocks: a tenth of a second.
pub const ANIMATION_PERIOD_NANOS: u64 = 100_000_000;

/// `v` held to the range of `i64`.
pub open spec fn clamp_i64(v: int) -> int {
    if v < i64::MIN {
        i64::MIN as int
    } else if v > i64::MAX {
        i64::MAX as int
    } else {
        v
    }
}

/// Sum of two `i64`, held to the range of `i64` where it would leave it.
pub fn add_clamped(a: i64, b: i64) -> (r: i64)
    ensures
        r == clamp_i64(a + b),
{
    let s: i128 = a as i128 + b as i128;
    if s > i64::MAX as i128 {
        i64::MAX
    } else if s < i64::MIN as i128 {
        i64::MIN
    } else {
        s as i64
    }
}

} // verus!
