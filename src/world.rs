use vstd::prelude::*;
use crate::contact::{collide, contact_of, Aabb, Contact};
use crate::hazard::{chase_step, hazard_animate_step, standing_walker, Hazard};
use crate::player::{
    animate_step, input_step, is_starting_crow, physics_step, restart_step, HorizontalFlag, Keys,
    Player, VerticalFlag,
};
use crate::random::draw_in;
use crate::units::{
    CROW_SIZE, GROUND_LINE, JEWEL_MAX_UNITS, JEWEL_MIN_UNITS, PICKUP_SIZE, STEPS_PER_UNIT,
    WALKER_COUNT, WALKER_MAX_UNITS, WALKER_MIN_UNITS,
};

verus! {

/// What touching a collider does.
#[derive(PartialEq, Eq, Structural, Clone, Copy, Debug)]
pub enum ColliderKind {
    /// Blocks the crow's movement.
    Surface,
    /// Scores a point and disappears.
    Jewel,
}

/// A fixed box of the world. `id` names it for the renderer.
#[derive(PartialEq, Eq, Structural, Clone, Copy, Debug)]
pub struct Collider {
    pub id: u64,
    pub bounds: Aabb,
    pub kind: ColliderKind,
}

/// What the first boxes that touch the crow in one check have shown: whether
/// any touched it, and the first side on each axis.
#[derive(PartialEq, Eq, Structural, Clone, Copy, Debug)]
pub struct ContactScan {
    pub touched: bool,
    pub first_horizontal: Option<Contact>,
    pub first_vertical: Option<Contact>,
}

pub open spec fn empty_scan() -> ContactScan {
    ContactScan { touched: false, first_horizontal: None, first_vertical: None }
}

/// `s` after one more box, which touches the crow on side `c`, if at all.
pub open spec fn scan_one(s: ContactScan, c: Option<Contact>) -> ContactScan {
    match c {
        None => s,
        Some(side) => ContactScan {
            touched: true,
            first_horizontal: if s.first_horizontal is None && !side.is_vertical() {
                Some(side)
            } else {
                s.first_horizontal
            },
            first_vertical: if s.first_vertical is None && side.is_vertical() {
                Some(side)
            } else {
                s.first_vertical
            },
        },
    }
}

/// `s` after the boxes whose contacts are `cs`, in order.
pub open spec fn scan_from(s: ContactScan, cs: Seq<Option<Contact>>) -> ContactScan
    decreases cs.len(),
{
    if cs.len() == 0 {
        s
    } else {
        scan_one(scan_from(s, cs.drop_last()), cs.last())
    }
}

pub open spec fn crow_box(p: Player) -> Aabb {
    Aabb { x: p.x, y: p.y, width: CROW_SIZE, height: CROW_SIZE }
}

pub open spec fn collider_contacts(cs: Seq<Collider>, crow: Aabb) -> Seq<Option<Contact>> {
    cs.map_values(|c: Collider| contact_of(c.bounds, crow))
}

pub open spec fn hazard_contacts(hs: Seq<Hazard>, crow: Aabb) -> Seq<Option<Contact>> {
    hs.map_values(|h: Hazard| contact_of(h.spec_bounds(), crow))
}

/// A jewel that touches the crow is picked up.
pub open spec fn picked_up(c: Collider, crow: Aabb) -> bool {
    c.kind == ColliderKind::Jewel && contact_of(c.bounds, crow) is Some
}

/// The colliders of `cs` that stay, in their order.
pub open spec fn kept_colliders(cs: Seq<Collider>, crow: Aabb) -> Seq<Collider>
    decreases cs.len(),
{
    if cs.len() == 0 {
        cs
    } else if picked_up(cs.last(), crow) {
        kept_colliders(cs.drop_last(), crow)
    } else {
        kept_colliders(cs.drop_last(), crow).push(cs.last())
    }
}

/// Number of jewels of `cs` picked up.
pub open spec fn jewels_taken(cs: Seq<Collider>, crow: Aabb) -> nat
    decreases cs.len(),
{
    if cs.len() == 0 {
        0
    } else if picked_up(cs.last(), crow) {
        jewels_taken(cs.drop_last(), crow) + 1
    } else {
        jewels_taken(cs.drop_last(), crow)
    }
}

pub open spec fn hazard_hit(hs: Seq<Hazard>, crow: Aabb) -> bool {
    exists|j: int| 0 <= j < hs.len() && contact_of(#[trigger] hs[j].spec_bounds(), crow) is Some
}

/// The horizontal flag after a check: cleared when no box touched the crow,
/// else set by the first box that touched it on a side, else kept.
pub open spec fn horizontal_after(s: ContactScan, old_flag: HorizontalFlag) -> HorizontalFlag {
    if !s.touched {
        HorizontalFlag::Clear
    } else {
        match s.first_horizontal {
            Some(Contact::Left) => HorizontalFlag::Left,
            Some(Contact::Right) => HorizontalFlag::Right,
            _ => old_flag,
        }
    }
}

/// The vertical flag after a check, as `horizontal_after` does it.
pub open spec fn vertical_after(s: ContactScan, old_flag: VerticalFlag) -> VerticalFlag {
    if !s.touched {
        VerticalFlag::Clear
    } else {
        match s.first_vertical {
            Some(Contact::Top) => VerticalFlag::Top,
            Some(Contact::Bottom) => VerticalFlag::Bottom,
            _ => old_flag,
        }
    }
}

pub open spec fn add_capped(a: u64, b: nat) -> u64 {
    if a + b > u64::MAX {
        u64::MAX
    } else {
        (a + b) as u64
    }
}

/// The world as values.
pub struct WorldView {
    pub player: Player,
    pub colliders: Seq<Collider>,
    pub hazards: Seq<Hazard>,
    pub next_id: u64,
}

/// The world after one collision check against the crow's box. The
/// colliders come first, in their order, then the walkers. Each jewel that
/// touches the crow scores once and is removed; touching a walker kills.
pub open spec fn collision_step(w: WorldView) -> WorldView {
    let crow = crow_box(w.player);
    let s = scan_from(
        empty_scan(),
        collider_contacts(w.colliders, crow) + hazard_contacts(w.hazards, crow),
    );
    WorldView {
        player: Player {
            horizontal: horizontal_after(s, w.player.horizontal),
            vertical: vertical_after(s, w.player.vertical),
            score: add_capped(w.player.score, jewels_taken(w.colliders, crow)),
            alive: w.player.alive && !hazard_hit(w.hazards, crow),
            ..w.player
        },
        colliders: kept_colliders(w.colliders, crow),
        ..w
    }
}

/// The walkers after the animation and chase of one tick, with the crow at
/// `crow_x`.
pub open spec fn hazards_step(hs: Seq<Hazard>, crow_x: i64, delta: u64) -> Seq<Hazard> {
    hs.map_values(|h: Hazard| chase_step(hazard_animate_step(h, delta), crow_x))
}

/// What happened in a tick, for the renderer and the sound.
#[derive(PartialEq, Eq, Structural, Clone, Copy, Debug)]
pub struct TickEvents {
    /// The crow beat its wings.
    pub flapped: bool,
    /// The crow touched a walker.
    pub died: bool,
    /// A dead crow was brought back.
    pub restarted: bool,
}

/// The world after one tick with the keys `keys` held and `delta`
/// nanoseconds of wall-clock time passed. While the crow lives, the steps
/// run in a fixed order: keys, collisions, vertical motion, animation, then
/// the walkers. While it is dead, only a wing beat does anything: it
/// restarts the game.
pub open spec fn tick_step(w: WorldView, keys: Keys, delta: u64) -> WorldView {
    if !w.player.alive {
        if keys.jump {
            WorldView { player: restart_step(w.player), ..w }
        } else {
            w
        }
    } else {
        let checked = collision_step(WorldView { player: input_step(w.player, keys), ..w });
        let moved = animate_step(physics_step(checked.player), delta);
        WorldView {
            player: moved,
            hazards: hazards_step(checked.hazards, moved.x, delta),
            ..checked
        }
    }
}

pub open spec fn tick_events(w: WorldView, keys: Keys, delta: u64) -> TickEvents {
    TickEvents {
        flapped: w.player.alive && keys.jump,
        died: w.player.alive && !tick_step(w, keys, delta).player.alive,
        restarted: !w.player.alive && keys.jump,
    }
}

/// A jewel with id `id` at horizontal position `x`.
pub open spec fn jewel_at(id: u64, x: i64) -> Collider {
    Collider {
        id,
        bounds: Aabb { x, y: GROUND_LINE, width: PICKUP_SIZE, height: PICKUP_SIZE },
        kind: ColliderKind::Jewel,
    }
}

pub open spec fn id_after(id: u64) -> u64 {
    if id == u64::MAX {
        0
    } else {
        (id + 1) as u64
    }
}

/// The world after the spawner put a jewel at `x`; a dead crow's world
/// gets none.
pub open spec fn spawn_step(w: WorldView, x: i64) -> WorldView {
    if w.player.alive {
        WorldView {
            colliders: w.colliders.push(jewel_at(w.next_id, x)),
            next_id: id_after(w.next_id),
            ..w
        }
    } else {
        w
    }
}

pub open spec fn block(id: u64, x: i64, y: i64, width: i64, height: i64) -> Collider {
    Collider { id, bounds: Aabb { x, y, width, height }, kind: ColliderKind::Surface }
}

/// The fixed scenery of a new world, in steps: five blocks, three floor
/// slabs whose tops lie at height 0, and one jewel.
pub open spec fn initial_colliders() -> Seq<Collider> {
    seq![
        block(0, 6000, 960, 1920, 1920),
        block(1, 0, 3000, 6000, 6000),
        block(2, 42000, 3000, 1920, 6000),
        block(3, -42000i64, 3000, 1920, 6000),
        block(4, -69000i64, 3000, 1920, 6000),
        block(5, -60000i64, -30000i64, 60000, 60000),
        block(6, 0, -30000i64, 60000, 60000),
        block(7, 60000, -30000i64, 60000, 60000),
        jewel_at(8, -9000i64),
    ]
}

/// A walker's starting position: a whole number of units, at least 300 and
/// under 1500 away from the origin.
pub open spec fn walker_start(x: int) -> bool {
    &&& x % (STEPS_PER_UNIT as int) == 0
    &&& (WALKER_MIN_UNITS * STEPS_PER_UNIT <= x < WALKER_MAX_UNITS * STEPS_PER_UNIT || -WALKER_MAX_UNITS * STEPS_PER_UNIT < x <= -WALKER_MIN_UNITS * STEPS_PER_UNIT)
}

/// Where a walker starts that was drawn `units` away from the origin, on the
/// left if `flip` is 1 and on the right otherwise.
pub open spec fn walker_x_of(units: int, flip: int) -> int {
    if flip == 1 {
        -(units * STEPS_PER_UNIT)
    } else {
        units * STEPS_PER_UNIT
    }
}

/// Scanning two runs of boxes one after the other is scanning them joined.
pub proof fn lemma_scan_append(s: ContactScan, a: Seq<Option<Contact>>, b: Seq<Option<Contact>>)
    ensures
        scan_from(scan_from(s, a), b) == scan_from(s, a + b),
    decreases b.len(),
{
    if b.len() == 0 {
        assert(a + b =~= a);
    } else {
        lemma_scan_append(s, a, b.drop_last());
        assert((a + b).drop_last() =~= a + b.drop_last());
    }
}

impl ContactScan {
    fn record(&mut self, c: Option<Contact>)
        ensures
            *final(self) == scan_one(*old(self), c),
    {
        if let Some(side) = c {
            self.touched = true;
            let vertical = side == Contact::Top || side == Contact::Bottom;
            if self.first_horizontal.is_none() && !vertical {
                self.first_horizontal = Some(side);
            }
            if self.first_vertical.is_none() && vertical {
                self.first_vertical = Some(side);
            }
        }
    }
}

/// The game world: the crow, the fixed colliders and the walkers.
pub struct World {
    pub player: Player,
    pub colliders: Vec<Collider>,
    pub hazards: Vec<Hazard>,
    /// Id that the next jewel will get.
    pub next_id: u64,
}

impl View for World {
    type V = WorldView;

    open spec fn view(&self) -> WorldView {
        WorldView {
            player: self.player,
            colliders: self.colliders@,
            hazards: self.hazards@,
            next_id: self.next_id,
        }
    }
}

impl WorldView {
    pub open spec fn wf(self) -> bool {
        &&& self.player.wf()
        &&& forall|j: int| 0 <= j < self.hazards.len() ==> (#[trigger] self.hazards[j]).wf()
    }
}

impl World {
    pub open spec fn wf(&self) -> bool {
        self@.wf()
    }

    /// Checks every box against the crow (see `collision_step`).
    pub fn resolve_collisions(&mut self)
        requires
            old(self).wf(),
        ensures
            final(self).wf(),
            final(self)@ == collision_step(old(self)@),
    {
        let ghost w = self@;
        let crow = Aabb {
            x: self.player.x,
            y: self.player.y,
            width: CROW_SIZE,
            height: CROW_SIZE,
        };
        let mut scan = ContactScan { touched: false, first_horizontal: None, first_vertical: None };
        let mut kept: Vec<Collider> = Vec::new();
        let mut taken: u64 = 0;
        let n = self.colliders.len();
        let mut i: usize = 0;
        while i < n
            invariant
                self@ == w,
                n == w.colliders.len(),
                crow == crow_box(w.player),
                i <= n,
                taken <= i,
                scan == scan_from(empty_scan(), collider_contacts(w.colliders.take(i as int), crow)),
                kept@ == kept_colliders(w.colliders.take(i as int), crow),
                taken == jewels_taken(w.colliders.take(i as int), crow),
            decreases n - i,
        {
            let c = self.colliders[i];
            let touch = collide(&c.bounds, &crow);
            scan.record(touch);
            let ghost prefix = w.colliders.take(i as int);
            assert(w.colliders.take(i + 1).drop_last() =~= prefix);
            assert(collider_contacts(w.colliders.take(i + 1), crow).drop_last() =~= collider_contacts(prefix, crow));
            if c.kind == ColliderKind::Jewel && touch.is_some() {
                taken = taken + 1;
            } else {
                kept.push(c);
            }
            i = i + 1;
        }
        assert(w.colliders.take(n as int) =~= w.colliders);
        let ghost after_colliders = scan;
        let m = self.hazards.len();
        let mut hit = false;
        let mut j: usize = 0;
        while j < m
            invariant
                self@ == w,
                m == w.hazards.len(),
                crow == crow_box(w.player),
                j <= m,
                scan == scan_from(after_colliders, hazard_contacts(w.hazards.take(j as int), crow)),
                hit == exists|k: int| 0 <= k < j && contact_of(#[trigger] w.hazards[k].spec_bounds(), crow) is Some,
            decreases m - j,
        {
            let b = self.hazards[j].bounds();
            let touch = collide(&b, &crow);
            scan.record(touch);
            let ghost prefix = w.hazards.take(j as int);
            assert(w.hazards.take(j + 1).drop_last() =~= prefix);
            assert(hazard_contacts(w.hazards.take(j + 1), crow).drop_last() =~= hazard_contacts(prefix, crow));
            if touch.is_some() {
                hit = true;
            }
            j = j + 1;
        }
        assert(w.hazards.take(m as int) =~= w.hazards);
        proof {
            lemma_scan_append(empty_scan(), collider_contacts(w.colliders, crow), hazard_contacts(w.hazards, crow));
        }
        if scan.touched {
            match scan.first_horizontal {
                Some(Contact::Left) => { self.player.horizontal = HorizontalFlag::Left; },
                Some(Contact::Right) => { self.player.horizontal = HorizontalFlag::Right; },
                _ => {},
            }
            match scan.first_vertical {
                Some(Contact::Top) => { self.player.vertical = VerticalFlag::Top; },
                Some(Contact::Bottom) => { self.player.vertical = VerticalFlag::Bottom; },
                _ => {},
            }
        } else {
            self.player.horizontal = HorizontalFlag::Clear;
            self.player.vertical = VerticalFlag::Clear;
        }
        if taken > u64::MAX - self.player.score {
            self.player.score = u64::MAX;
        } else {
            self.player.score = self.player.score + taken;
        }
        if hit {
            self.player.alive = false;
        }
        self.colliders = kept;
    }

    /// Animates every walker and lets it chase the crow.
    fn move_hazards(&mut self, delta: u64)
        requires
            old(self).wf(),
        ensures
            final(self).wf(),
            final(self)@ == (WorldView {
                hazards: hazards_step(old(self)@.hazards, old(self).player.x, delta),
                ..old(self)@
            }),
    {
        let ghost hs = self.hazards@;
        let crow_x = self.player.x;
        let n = self.hazards.len();
        let mut j: usize = 0;
        while j < n
            invariant
                n == self.hazards@.len(),
                n == hs.len(),
                j <= n,
                self.player == old(self).player,
                self.colliders == old(self).colliders,
                self.next_id == old(self).next_id,
                hs == old(self)@.hazards,
                self.player.wf(),
                crow_x == self.player.x,
                forall|k: int| 0 <= k < j ==> self.hazards@[k] == chase_step(hazard_animate_step(#[trigger] hs[k], delta), crow_x),
                forall|k: int| j <= k < n ==> self.hazards@[k] == hs[k],
                forall|k: int| 0 <= k < n ==> (#[trigger] self.hazards@[k]).wf(),
            decreases n - j,
        {
            let mut h = self.hazards[j];
            h.animate(delta);
            h.chase(crow_x);
            self.hazards.set(j, h);
            j = j + 1;
        }
        assert(self.hazards@ =~= hazards_step(hs, crow_x, delta));
    }

    /// One tick of the game (see `tick_step`).
    pub fn tick(&mut self, keys: Keys, delta: u64) -> (ev: TickEvents)
        requires
            old(self).wf(),
        ensures
            final(self).wf(),
            final(self)@ == tick_step(old(self)@, keys, delta),
            ev == tick_events(old(self)@, keys, delta),
    {
        if !self.player.alive {
            let restarted = self.gameover_screen(keys);
            return TickEvents { flapped: false, died: false, restarted };
        }
        self.player.apply_input(keys);
        self.resolve_collisions();
        self.player.integrate();
        self.player.animate(delta);
        self.move_hazards(delta);
        TickEvents { flapped: keys.jump, died: !self.player.alive, restarted: false }
    }

    /// Whether the game runs: the crow is alive.
    pub fn game_not_over(&self) -> (r: bool)
        ensures
            r == self.player.alive,
    {
        self.player.alive
    }

    /// Whether the game waits for a restart: the crow is dead.
    pub fn game_is_over(&self) -> (r: bool)
        ensures
            r == !self.player.alive,
    {
        !self.player.alive
    }

    /// While the crow is dead, a wing beat brings it back at the spawn point
    /// with no score; returns whether it did.
    pub fn gameover_screen(&mut self, keys: Keys) -> (restarted: bool)
        requires
            old(self).wf(),
        ensures
            final(self).wf(),
            restarted == (!old(self).player.alive && keys.jump),
            final(self)@ == (if restarted {
                WorldView { player: restart_step(old(self).player), ..old(self)@ }
            } else {
                old(self)@
            }),
    {
        if !self.player.alive && keys.jump {
            self.player.restart();
            true
        } else {
            false
        }
    }

    /// Puts a jewel at horizontal position `x` (in steps) on the ground line
    /// (see `spawn_step`); returns its id if it did.
    pub fn spawn_jewel_at(&mut self, x: i64) -> (id: Option<u64>)
        requires
            old(self).wf(),
        ensures
            final(self).wf(),
            final(self)@ == spawn_step(old(self)@, x),
            id == (if old(self).player.alive { Some(old(self).next_id) } else { None::<u64> }),
    {
        if !self.player.alive {
            return None;
        }
        let id = self.next_id;
        self.colliders.push(Collider {
            id,
            bounds: Aabb { x, y: GROUND_LINE, width: PICKUP_SIZE, height: PICKUP_SIZE },
            kind: ColliderKind::Jewel,
        });
        self.next_id = if id == u64::MAX { 0 } else { id + 1 };
        Some(id)
    }

    /// Puts a jewel at a random whole number of units in `[-1500, 1500)`,
    /// unless the crow is dead; returns its id if it did.
    pub fn spawn_jewel(&mut self) -> (id: Option<u64>)
        requires
            old(self).wf(),
        ensures
            final(self).wf(),
            old(self).player.alive ==> {
                let x = final(self).colliders@.last().bounds.x;
                &&& final(self)@ == spawn_step(old(self)@, x)
                &&& x % STEPS_PER_UNIT == 0
                &&& JEWEL_MIN_UNITS * STEPS_PER_UNIT <= x < JEWEL_MAX_UNITS * STEPS_PER_UNIT
            },
            !old(self).player.alive ==> final(self)@ == old(self)@,
            id == (if old(self).player.alive { Some(old(self).next_id) } else { None::<u64> }),
    {
        let u = draw_in(JEWEL_MIN_UNITS, JEWEL_MAX_UNITS);
        self.spawn_jewel_at(u * STEPS_PER_UNIT)
    }


    /// A new world: the starting crow, the fixed scenery, and one walker at
    /// each position of `xs` (in steps), in that order.
    pub fn with_walkers(xs: &Vec<i64>) -> (r: World)
        ensures
            r.wf(),
            is_starting_crow(r.player),
            r.colliders@ == initial_colliders(),
            r.next_id == 9,
            r.hazards@ == xs@.map_values(|x: i64| standing_walker(x)),
    {
        let mut colliders: Vec<Collider> = Vec::new();
        colliders.push(World::block(0, 6000, 960, 1920, 1920));
        colliders.push(World::block(1, 0, 3000, 6000, 6000));
        colliders.push(World::block(2, 42000, 3000, 1920, 6000));
        colliders.push(World::block(3, -42000, 3000, 1920, 6000));
        colliders.push(World::block(4, -69000, 3000, 1920, 6000));
        colliders.push(World::block(5, -60000, -30000, 60000, 60000));
        colliders.push(World::block(6, 0, -30000, 60000, 60000));
        colliders.push(World::block(7, 60000, -30000, 60000, 60000));
        colliders.push(Collider {
            id: 8,
            bounds: Aabb { x: -9000, y: GROUND_LINE, width: PICKUP_SIZE, height: PICKUP_SIZE },
            kind: ColliderKind::Jewel,
        });
        assert(colliders@ =~= initial_colliders());
        let mut hazards: Vec<Hazard> = Vec::new();
        let n = xs.len();
        let mut j: usize = 0;
        while j < n
            invariant
                n == xs@.len(),
                j <= n,
                hazards@ =~= xs@.take(j as int).map_values(|x: i64| standing_walker(x)),
            decreases n - j,
        {
            hazards.push(Hazard::new(xs[j]));
            j = j + 1;
            assert(xs@.take(j as int).drop_last() =~= xs@.take(j - 1));
        }
        assert(xs@.take(n as int) =~= xs@);
        World { player: Player::crow(), colliders, hazards, next_id: 9 }
    }

    /// Where a walker starts that was drawn `units` whole units away from the
    /// origin, on the left if `flip` is 1 and on the right otherwise (see
    /// `walker_x_of`).
    pub fn walker_x(units: i64, flip: i64) -> (x: i64)
        requires
            WALKER_MIN_UNITS <= units < WALKER_MAX_UNITS,
            0 <= flip < 2,
        ensures
            x == walker_x_of(units as int, flip as int),
            walker_start(x as int),
    {
        if flip == 1 {
            -(units * STEPS_PER_UNIT)
        } else {
            units * STEPS_PER_UNIT
        }
    }

    fn block(id: u64, x: i64, y: i64, width: i64, height: i64) -> (r: Collider)
        ensures
            r == block(id, x, y, width, height),
    {
        Collider { id, bounds: Aabb { x, y, width, height }, kind: ColliderKind::Surface }
    }

    /// A new world with ten walkers, each at a random distance of a whole
    /// number of units in `[300, 1500)` from the origin, on a random side.
    pub fn new() -> (r: World)
        ensures
            r.wf(),
            is_starting_crow(r.player),
            r.colliders@ == initial_colliders(),
            r.next_id == 9,
            r.hazards@.len() == WALKER_COUNT,
            forall|j: int|
                0 <= j < WALKER_COUNT ==> {
                    &&& #[trigger] r.hazards@[j] == standing_walker(r.hazards@[j].x)
                    &&& walker_start(r.hazards@[j].x as int)
                    &&& exists|units: int, flip: int|
                        WALKER_MIN_UNITS <= units < WALKER_MAX_UNITS && 0 <= flip < 2
                            && r.hazards@[j].x == #[trigger] walker_x_of(units, flip)
                },
    {
        let mut xs: Vec<i64> = Vec::new();
        let mut j: usize = 0;
        while j < WALKER_COUNT
            invariant
                j <= WALKER_COUNT,
                xs@.len() == j,
                forall|k: int|
                    0 <= k < j ==> {
                        &&& walker_start(#[trigger] xs@[k] as int)
                        &&& exists|units: int, flip: int|
                            WALKER_MIN_UNITS <= units < WALKER_MAX_UNITS && 0 <= flip < 2
                                && xs@[k] == #[trigger] walker_x_of(units, flip)
                    },
            decreases WALKER_COUNT - j,
        {
            let units = draw_in(WALKER_MIN_UNITS, WALKER_MAX_UNITS);
            let flip = draw_in(0, 2);
            xs.push(World::walker_x(units, flip));
            j = j + 1;
        }
        World::with_walkers(&xs)
    }

}

} // verus!
