use vstd::prelude::*;
use crate::clock::RepeatingClock;
use crate::units::{
    clamp_i64, add_clamped, ANIMATION_PERIOD_NANOS, GRAVITY_DECAY, JUMP_NUDGE, JUMP_SPEED,
    RUN_STEP, SPAWN_X, SPAWN_Y, WORLD_EDGE,
};

verus! {

/// What the crow is doing, which selects its sprite sheet and frame table.
/// The take-off animation counts as flying.
#[derive(PartialEq, Eq, Structural, Clone, Copy, Debug)]
pub enum PlayerState {
    Idle,
    Run,
    Fly,
}

/// Side on which a box blocks horizontal movement, as of the last check.
#[derive(PartialEq, Eq, Structural, Clone, Copy, Debug)]
pub enum HorizontalFlag {
    Left,
    Right,
    Clear,
}

/// Side on which a box touches the crow vertically, as of the last check.
#[derive(PartialEq, Eq, Structural, Clone, Copy, Debug)]
pub enum VerticalFlag {
    Top,
    Bottom,
    Clear,
}

/// The keys held during one tick.
#[derive(PartialEq, Eq, Structural, Clone, Copy, Debug)]
pub struct Keys {
    pub jump: bool,
    pub left: bool,
    pub right: bool,
}

/// The crow. Its position is in steps (see the crate root), its vertical
/// speed (`acceleration`) in units per second, which is steps per tick.
#[derive(Debug)]
pub struct Player {
    pub x: i64,
    pub y: i64,
    pub acceleration: i64,
    pub state: PlayerState,
    /// Timer firings for which each frame is held, per state.
    pub idle_holds: Vec<u32>,
    pub run_holds: Vec<u32>,
    pub fly_holds: Vec<u32>,
    /// Frames in each state's sprite sheet.
    pub idle_frames: usize,
    pub run_frames: usize,
    pub fly_frames: usize,
    pub hold_counter: u64,
    pub frame_index: usize,
    pub horizontal: HorizontalFlag,
    pub vertical: VerticalFlag,
    pub score: u64,
    pub alive: bool,
    /// Whether the sprite is drawn mirrored, looking left.
    pub facing_left: bool,
    pub clock: RepeatingClock,
}

/// `p` in state `s`; a change of state restarts the animation at frame 0.
pub open spec fn with_state(p: Player, s: PlayerState) -> Player {
    if p.state == s {
        p
    } else {
        Player { state: s, frame_index: 0, ..p }
    }
}

/// `p` after the keys of one tick: first the grounding check (speed lost
/// on the ground, gravity in the air, landing ends a flight), then a wing
/// beat, then a horizontal move, left before right, which the world's
/// edges bound.
pub open spec fn input_step(p: Player, keys: Keys) -> Player {
    let grounded = if p.vertical == VerticalFlag::Bottom {
        Player {
            acceleration: 0,
            ..with_state(p, if p.state == PlayerState::Fly { PlayerState::Idle } else { p.state })
        }
    } else {
        Player { acceleration: clamp_i64(p.acceleration - GRAVITY_DECAY) as i64, ..p }
    };
    let beat = if keys.jump {
        with_state(
            Player {
                acceleration: JUMP_SPEED,
                y: clamp_i64(grounded.y + JUMP_NUDGE) as i64,
                ..grounded
            },
            PlayerState::Fly,
        )
    } else {
        grounded
    };
    if keys.left && beat.horizontal != HorizontalFlag::Left && beat.x > -WORLD_EDGE {
        start_run(Player { x: step_left(beat.x), facing_left: true, ..beat })
    } else if keys.right && beat.horizontal != HorizontalFlag::Right && beat.x < WORLD_EDGE {
        start_run(Player { x: step_right(beat.x), facing_left: false, ..beat })
    } else if beat.state != PlayerState::Fly {
        with_state(beat, PlayerState::Idle)
    } else {
        beat
    }
}

/// A step to the left from `x`, which ends at the world's edge.
pub open spec fn step_left(x: i64) -> i64 {
    if x - RUN_STEP < -WORLD_EDGE {
        (-WORLD_EDGE) as i64
    } else {
        (x - RUN_STEP) as i64
    }
}

/// A step to the right from `x`, which ends at the world's edge.
pub open spec fn step_right(x: i64) -> i64 {
    if x + RUN_STEP > WORLD_EDGE {
        WORLD_EDGE
    } else {
        (x + RUN_STEP) as i64
    }
}

/// A move on the ground turns standing into running.
pub open spec fn start_run(p: Player) -> Player {
    if p.state == PlayerState::Idle {
        with_state(p, PlayerState::Run)
    } else {
        p
    }
}

/// `p` after vertical integration: on the ground the speed is dropped and
/// the crow stays put, otherwise it moves by its speed.
pub open spec fn physics_step(p: Player) -> Player {
    if p.vertical == VerticalFlag::Bottom {
        Player { acceleration: 0, ..p }
    } else {
        Player { y: clamp_i64(p.y + p.acceleration) as i64, ..p }
    }
}

/// `p` after its animation clock advanced by `delta` nanoseconds. Each
/// firing counts against the hold time of the current frame; once the count
/// exceeds it, the next frame is shown and the count starts again.
pub open spec fn animate_step(p: Player, delta: u64) -> Player {
    let clock = RepeatingClock { elapsed_nanos: p.clock.carried(delta) as u64, ..p.clock };
    if !p.clock.fires(delta) {
        Player { clock, ..p }
    } else if p.hold_counter + 1 > p.holds()[p.frame_index as int] {
        Player {
            clock,
            hold_counter: 0,
            frame_index: ((p.frame_index + 1) % (p.frame_count() as int)) as usize,
            ..p
        }
    } else {
        Player { clock, hold_counter: (p.hold_counter + 1) as u64, ..p }
    }
}

/// `p` is the crow as a new game has it (see `Player::crow`).
pub open spec fn is_starting_crow(p: Player) -> bool {
    &&& p.x == SPAWN_X
    &&& p.y == SPAWN_Y
    &&& p.acceleration == 0
    &&& p.state == PlayerState::Idle
    &&& p.idle_holds@ == seq![10u32, 1, 1, 1, 1, 1, 1, 1, 2, 10, 10]
    &&& p.run_holds@ == seq![1u32, 1, 1, 1, 1, 1, 1, 1, 1]
    &&& p.fly_holds@ == seq![1u32, 1, 1, 1, 1, 1]
    &&& p.idle_frames == 11
    &&& p.run_frames == 7
    &&& p.fly_frames == 6
    &&& p.hold_counter == 0
    &&& p.frame_index == 0
    &&& p.horizontal == HorizontalFlag::Clear
    &&& p.vertical == VerticalFlag::Clear
    &&& p.score == 0
    &&& p.alive
    &&& !p.facing_left
    &&& p.clock.period_nanos == ANIMATION_PERIOD_NANOS
    &&& p.clock.elapsed_nanos == 0
}

/// `p` brought back to life at the spawn point with no score.
pub open spec fn restart_step(p: Player) -> Player {
    Player { alive: true, score: 0, x: SPAWN_X, y: SPAWN_Y, ..p }
}

impl Player {
    pub open spec fn frame_count(self) -> nat {
        match self.state {
            PlayerState::Idle => self.idle_frames as nat,
            PlayerState::Run => self.run_frames as nat,
            PlayerState::Fly => self.fly_frames as nat,
        }
    }

    pub open spec fn holds(self) -> Seq<u32> {
        match self.state {
            PlayerState::Idle => self.idle_holds@,
            PlayerState::Run => self.run_holds@,
            PlayerState::Fly => self.fly_holds@,
        }
    }

    /// Each sheet has a frame and a hold time for each of its frames, the
    /// current frame is one of the current sheet's, and the crow stands
    /// within the world's edges.
    pub open spec fn wf(self) -> bool {
        &&& 0 < self.idle_frames <= self.idle_holds@.len()
        &&& 0 < self.run_frames <= self.run_holds@.len()
        &&& 0 < self.fly_frames <= self.fly_holds@.len()
        &&& self.frame_index < self.frame_count()
        &&& self.hold_counter <= u32::MAX
        &&& self.clock.wf()
        &&& -WORLD_EDGE <= self.x <= WORLD_EDGE
    }

    /// A crow at the spawn point, standing, alive and with no score, whose
    /// sheets have the frames and hold times given.
    pub fn new(
        idle_holds: Vec<u32>,
        idle_frames: usize,
        run_holds: Vec<u32>,
        run_frames: usize,
        fly_holds: Vec<u32>,
        fly_frames: usize,
    ) -> (r: Player)
        requires
            0 < idle_frames <= idle_holds@.len(),
            0 < run_frames <= run_holds@.len(),
            0 < fly_frames <= fly_holds@.len(),
        ensures
            r.wf(),
            r.x == SPAWN_X,
            r.y == SPAWN_Y,
            r.acceleration == 0,
            r.state == PlayerState::Idle,
            r.idle_holds@ == idle_holds@,
            r.run_holds@ == run_holds@,
            r.fly_holds@ == fly_holds@,
            r.idle_frames == idle_frames,
            r.run_frames == run_frames,
            r.fly_frames == fly_frames,
            r.hold_counter == 0,
            r.frame_index == 0,
            r.horizontal == HorizontalFlag::Clear,
            r.vertical == VerticalFlag::Clear,
            r.score == 0,
            r.alive,
            !r.facing_left,
            r.clock.period_nanos == ANIMATION_PERIOD_NANOS,
            r.clock.elapsed_nanos == 0,
    {
        Player {
            x: SPAWN_X,
            y: SPAWN_Y,
            acceleration: 0,
            state: PlayerState::Idle,
            idle_holds,
            run_holds,
            fly_holds,
            idle_frames,
            run_frames,
            fly_frames,
            hold_counter: 0,
            frame_index: 0,
            horizontal: HorizontalFlag::Clear,
            vertical: VerticalFlag::Clear,
            score: 0,
            alive: true,
            facing_left: false,
            clock: RepeatingClock::new(ANIMATION_PERIOD_NANOS),
        }
    }

    /// The crow as the game starts it: an eleven-frame idle sheet whose first
    /// and last two frames linger, a seven-frame run sheet and a six-frame
    /// take-off sheet, the others shown for one or two firings.
    pub fn crow() -> (r: Player)
        ensures
            r.wf(),
            is_starting_crow(r),
    {
        let idle: Vec<u32> = vec![10, 1, 1, 1, 1, 1, 1, 1, 2, 10, 10];
        let run: Vec<u32> = vec![1, 1, 1, 1, 1, 1, 1, 1, 1];
        let fly: Vec<u32> = vec![1, 1, 1, 1, 1, 1];
        assert(idle@ =~= seq![10u32, 1, 1, 1, 1, 1, 1, 1, 2, 10, 10]);
        assert(run@ =~= seq![1u32, 1, 1, 1, 1, 1, 1, 1, 1]);
        assert(fly@ =~= seq![1u32, 1, 1, 1, 1, 1]);
        Player::new(idle, 11, run, 7, fly, 6)
    }

    /// Switches to state `s`, starting its animation at frame 0 if that is a
    /// change.
    fn enter(&mut self, s: PlayerState)
        ensures
            *final(self) == with_state(*old(self), s),
    {
        if self.state != s {
            self.state = s;
            self.frame_index = 0;
        }
    }

    /// Applies the keys held during one tick (see `input_step`).
    pub fn apply_input(&mut self, keys: Keys)
        requires
            old(self).wf(),
        ensures
            final(self).wf(),
            *final(self) == input_step(*old(self), keys),
    {
        if self.vertical == VerticalFlag::Bottom {
            if self.state == PlayerState::Fly {
                self.enter(PlayerState::Idle);
            }
            self.acceleration = 0;
        } else {
            self.acceleration = add_clamped(self.acceleration, -GRAVITY_DECAY);
        }
        if keys.jump {
            self.acceleration = JUMP_SPEED;
            self.y = add_clamped(self.y, JUMP_NUDGE);
            self.enter(PlayerState::Fly);
        }
        if keys.left && self.horizontal != HorizontalFlag::Left && self.x > -WORLD_EDGE {
            self.x = if self.x - RUN_STEP < -WORLD_EDGE { -WORLD_EDGE } else { self.x - RUN_STEP };
            self.facing_left = true;
            if self.state == PlayerState::Idle {
                self.enter(PlayerState::Run);
            }
        } else if keys.right && self.horizontal != HorizontalFlag::Right && self.x < WORLD_EDGE {
            self.x = if self.x + RUN_STEP > WORLD_EDGE { WORLD_EDGE } else { self.x + RUN_STEP };
            self.facing_left = false;
            if self.state == PlayerState::Idle {
                self.enter(PlayerState::Run);
            }
        } else if self.state != PlayerState::Fly {
            self.enter(PlayerState::Idle);
        }
    }

    /// Integrates the vertical motion of one tick (see `physics_step`).
    pub fn integrate(&mut self)
        requires
            old(self).wf(),
        ensures
            final(self).wf(),
            *final(self) == physics_step(*old(self)),
    {
        if self.vertical == VerticalFlag::Bottom {
            self.acceleration = 0;
        } else {
            self.y = add_clamped(self.y, self.acceleration);
        }
    }

    /// Advances the animation by `delta` nanoseconds of wall-clock time (see
    /// `animate_step`).
    pub fn animate(&mut self, delta: u64)
        requires
            old(self).wf(),
        ensures
            final(self).wf(),
            *final(self) == animate_step(*old(self), delta),
    {
        if self.clock.advance(delta) {
            let count: u64 = self.hold_counter + 1;
            let hold: u32 = match self.state {
                PlayerState::Idle => self.idle_holds[self.frame_index],
                PlayerState::Run => self.run_holds[self.frame_index],
                PlayerState::Fly => self.fly_holds[self.frame_index],
            };
            if count > hold as u64 {
                let frames: usize = match self.state {
                    PlayerState::Idle => self.idle_frames,
                    PlayerState::Run => self.run_frames,
                    PlayerState::Fly => self.fly_frames,
                };
                self.hold_counter = 0;
                self.frame_index = (self.frame_index + 1) % frames;
            } else {
                self.hold_counter = count;
            }
        }
    }

    /// Brings the crow back to life at the spawn point with no score.
    pub fn restart(&mut self)
        requires
            old(self).wf(),
        ensures
            final(self).wf(),
            *final(self) == restart_step(*old(self)),
    {
        self.alive = true;
        self.score = 0;
        self.x = SPAWN_X;
        self.y = SPAWN_Y;
    }
}

} // verus!
