use vstd::prelude::*;
use crate::clock::RepeatingClock;
use crate::contact::Aabb;
use crate::units::{
    ANIMATION_PERIOD_NANOS, CHASE_RADIUS, CHASE_STEP, GROUND_LINE, PICKUP_SIZE,
    WALKER_FRAMES, WORLD_EDGE,
};

verus! {

/// A walker: a hazard that chases the crow along the ground. Touching one
/// ends the game.
#[derive(Clone, Copy, Debug)]
pub struct Hazard {
    pub x: i64,
    pub y: i64,
    /// Whether the sprite is drawn mirrored, looking left.
    pub facing_left: bool,
    pub frame_index: usize,
    pub clock: RepeatingClock,
}

pub open spec fn abs_diff(a: int, b: int) -> int {
    if a >= b {
        a - b
    } else {
        b - a
    }
}

/// `h` after one tick of chasing a crow at `crow_x`: within the chase radius
/// it steps towards the crow and turns to face it; farther away it stands.
pub open spec fn chase_step(h: Hazard, crow_x: i64) -> Hazard {
    if abs_diff(crow_x as int, h.x as int) < CHASE_RADIUS {
        if crow_x > h.x {
            Hazard { x: (h.x + CHASE_STEP) as i64, facing_left: false, ..h }
        } else {
            Hazard { x: (h.x - CHASE_STEP) as i64, facing_left: true, ..h }
        }
    } else {
        h
    }
}

/// `h` after its animation clock advanced by `delta` nanoseconds: each
/// firing shows the next frame of the walking cycle.
pub open spec fn hazard_animate_step(h: Hazard, delta: u64) -> Hazard {
    let clock = RepeatingClock { elapsed_nanos: h.clock.carried(delta) as u64, ..h.clock };
    if h.clock.fires(delta) {
        Hazard { clock, frame_index: ((h.frame_index + 1) % (WALKER_FRAMES as int)) as usize, ..h }
    } else {
        Hazard { clock, ..h }
    }
}

/// A walker as a new world has it: on the ground line at `x`, facing right,
/// at the first frame of its walk.
pub open spec fn standing_walker(x: i64) -> Hazard {
    Hazard {
        x,
        y: GROUND_LINE,
        facing_left: false,
        frame_index: 0,
        clock: RepeatingClock { period_nanos: ANIMATION_PERIOD_NANOS, elapsed_nanos: 0 },
    }
}

/// The crow's horizontal position lies within the world's edges.
pub open spec fn crow_x_in_range(x: i64) -> bool {
    -WORLD_EDGE <= x <= WORLD_EDGE
}

impl Hazard {
    pub open spec fn wf(self) -> bool {
        self.frame_index < WALKER_FRAMES && self.clock.wf()
    }

    pub open spec fn spec_bounds(self) -> Aabb {
        Aabb { x: self.x, y: self.y, width: PICKUP_SIZE, height: PICKUP_SIZE }
    }

    /// A walker standing on the ground line at `x`, facing right.
    pub fn new(x: i64) -> (r: Hazard)
        ensures
            r.wf(),
            r == standing_walker(x),
    {
        Hazard {
            x,
            y: GROUND_LINE,
            facing_left: false,
            frame_index: 0,
            clock: RepeatingClock::new(ANIMATION_PERIOD_NANOS),
        }
    }

    /// The walker's collision box.
    pub fn bounds(&self) -> (r: Aabb)
        ensures
            r == self.spec_bounds(),
    {
        Aabb { x: self.x, y: self.y, width: PICKUP_SIZE, height: PICKUP_SIZE }
    }

    /// One tick of chasing a crow at `crow_x` (see `chase_step`).
    pub fn chase(&mut self, crow_x: i64)
        requires
            crow_x_in_range(crow_x),
        ensures
            *final(self) == chase_step(*old(self), crow_x),
    {
        let gap: i128 = crow_x as i128 - self.x as i128;
        if -(CHASE_RADIUS as i128) < gap && gap < CHASE_RADIUS as i128 {
            if crow_x > self.x {
                self.facing_left = false;
                self.x = self.x + CHASE_STEP;
            } else {
                self.facing_left = true;
                self.x = self.x - CHASE_STEP;
            }
        }
    }

    /// Advances the walking animation by `delta` nanoseconds (see
    /// `hazard_animate_step`).
    pub fn animate(&mut self, delta: u64)
        requires
            old(self).wf(),
        ensures
            final(self).wf(),
            *final(self) == hazard_animate_step(*old(self), delta),
    {
        if self.clock.advance(delta) {
            self.frame_index = (self.frame_index + 1) % WALKER_FRAMES;
        }
    }
}

} // verus!
