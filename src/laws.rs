use vstd::prelude::*;
use crate::contact::{contact_of, Aabb};
use crate::player::{input_step, Keys, Player, VerticalFlag};
use crate::units::{SPAWN_X, SPAWN_Y};
use crate::world::{
    collision_step, crow_box, jewels_taken, kept_colliders, picked_up, tick_step, Collider,
    WorldView,
};

verus! {

/// The ticks from `w` on, each with its keys and its wall-clock time.
pub open spec fn run_ticks(w: WorldView, ticks: Seq<(Keys, u64)>) -> WorldView
    decreases ticks.len(),
{
    if ticks.len() == 0 {
        w
    } else {
        let before = run_ticks(w, ticks.drop_last());
        tick_step(before, ticks.last().0, ticks.last().1)
    }
}

pub open spec fn no_keys() -> Keys {
    Keys { jump: false, left: false, right: false }
}

/// On the ground the crow has no vertical speed.
pub open spec fn settled(p: Player) -> bool {
    p.vertical == VerticalFlag::Bottom ==> p.acceleration == 0
}

/// After a tick of a living crow, a crow on the ground has no vertical
/// speed; and a tick never undoes that.
pub proof fn lemma_grounded_crow_is_still(w: WorldView, keys: Keys, delta: u64)
    requires
        w.wf(),
    ensures
        w.player.alive ==> settled(tick_step(w, keys, delta).player),
        settled(w.player) ==> settled(tick_step(w, keys, delta).player),
{
}

/// A tick keeps the world well formed: in particular the crow's frame is
/// one of its current sheet's and has a hold time, and so has each walker's.
pub proof fn lemma_tick_keeps_frames_in_range(w: WorldView, keys: Keys, delta: u64)
    requires
        w.wf(),
    ensures
        tick_step(w, keys, delta).wf(),
        tick_step(w, keys, delta).player.frame_index < tick_step(w, keys, delta).player.frame_count(),
        tick_step(w, keys, delta).player.frame_index < tick_step(w, keys, delta).player.holds().len(),
{
    let w2 = tick_step(w, keys, delta);
    if w.player.alive {
        let checked = collision_step(WorldView { player: input_step(w.player, keys), ..w });
        assert(checked.player.wf());
        assert(checked.hazards == w.hazards);
        assert(forall|j: int| 0 <= j < w2.hazards.len() ==> (#[trigger] w2.hazards[j]).wf()) by {
            assert forall|j: int| 0 <= j < w2.hazards.len() implies (#[trigger] w2.hazards[j]).wf() by {
                assert(w.hazards[j].wf());
            }
        }
    }
}

/// A living crow on the ground that is left alone for one tick stays where
/// it is.
pub proof fn lemma_idle_tick_keeps_position(w: WorldView, delta: u64)
    requires
        w.wf(),
        w.player.vertical == VerticalFlag::Bottom,
    ensures
        tick_step(w, no_keys(), delta).player.x == w.player.x,
        tick_step(w, no_keys(), delta).player.y == w.player.y,
{
}

/// A crow that stays on the ground through ticks without keys does not
/// move, whatever wall-clock time passes.
pub proof fn lemma_idle_ticks_keep_position(w: WorldView, ticks: Seq<(Keys, u64)>)
    requires
        w.wf(),
        forall|k: int| 0 <= k < ticks.len() ==> (#[trigger] ticks[k]).0 == no_keys(),
        forall|k: int|
            0 <= k < ticks.len() ==> (#[trigger] run_ticks(w, ticks.take(k))).player.vertical
                == VerticalFlag::Bottom,
    ensures
        run_ticks(w, ticks).player.x == w.player.x,
        run_ticks(w, ticks).player.y == w.player.y,
        run_ticks(w, ticks).wf(),
    decreases ticks.len(),
{
    if ticks.len() > 0 {
        let n = ticks.len() - 1;
        let rest = ticks.drop_last();
        assert forall|k: int| 0 <= k < rest.len() implies (#[trigger] run_ticks(w, rest.take(k))).player.vertical
            == VerticalFlag::Bottom by {
            assert(rest.take(k) =~= ticks.take(k));
        }
        assert forall|k: int| 0 <= k < rest.len() implies (#[trigger] rest[k]).0 == no_keys() by {
            assert(rest[k] == ticks[k]);
        }
        lemma_idle_ticks_keep_position(w, rest);
        assert(ticks.take(n) =~= rest);
        assert(run_ticks(w, ticks.take(n)).player.vertical == VerticalFlag::Bottom);
        assert(ticks[n].0 == no_keys());
        lemma_idle_tick_keeps_position(run_ticks(w, rest), ticks.last().1);
        lemma_tick_keeps_frames_in_range(run_ticks(w, rest), ticks.last().0, ticks.last().1);
    }
}

/// A wing beat of a dead crow restarts the game: no score, alive, at the
/// spawn point, whatever came before.
pub proof fn lemma_restart_resets(w: WorldView, keys: Keys, delta: u64)
    requires
        w.wf(),
        !w.player.alive,
        keys.jump,
    ensures
        tick_step(w, keys, delta).player.score == 0,
        tick_step(w, keys, delta).player.alive,
        tick_step(w, keys, delta).player.x == SPAWN_X,
        tick_step(w, keys, delta).player.y == SPAWN_Y,
{
}

/// The score never drops but at a restart.
pub proof fn lemma_score_only_grows(w: WorldView, keys: Keys, delta: u64)
    requires
        w.wf(),
        w.player.alive || !keys.jump,
    ensures
        tick_step(w, keys, delta).player.score >= w.player.score,
{
}

/// A tick in which the crow, once moved by the keys, touches a walker ends
/// the game.
pub proof fn lemma_walker_kills(w: WorldView, keys: Keys, delta: u64, j: int)
    requires
        w.wf(),
        w.player.alive,
        0 <= j < w.hazards.len(),
        contact_of(w.hazards[j].spec_bounds(), crow_box(input_step(w.player, keys))) is Some,
    ensures
        !tick_step(w, keys, delta).player.alive,
{
}

/// While the crow is dead, ticks without a wing beat change nothing: score,
/// position and every other part of the world stay as they are.
pub proof fn lemma_dead_world_is_frozen(w: WorldView, ticks: Seq<(Keys, u64)>)
    requires
        !w.player.alive,
        forall|k: int| 0 <= k < ticks.len() ==> !(#[trigger] ticks[k]).0.jump,
    ensures
        run_ticks(w, ticks) == w,
    decreases ticks.len(),
{
    if ticks.len() > 0 {
        let rest = ticks.drop_last();
        assert forall|k: int| 0 <= k < rest.len() implies !(#[trigger] rest[k]).0.jump by {
            assert(rest[k] == ticks[k]);
        }
        lemma_dead_world_is_frozen(w, rest);
        assert(!ticks[ticks.len() - 1].0.jump);
    }
}

proof fn lemma_nothing_picked(cs: Seq<Collider>, crow: Aabb)
    requires
        forall|j: int| 0 <= j < cs.len() ==> !picked_up(#[trigger] cs[j], crow),
    ensures
        kept_colliders(cs, crow) == cs,
        jewels_taken(cs, crow) == 0,
    decreases cs.len(),
{
    if cs.len() > 0 {
        let rest = cs.drop_last();
        assert forall|j: int| 0 <= j < rest.len() implies !picked_up(#[trigger] rest[j], crow) by {
            assert(rest[j] == cs[j]);
        }
        lemma_nothing_picked(rest, crow);
        assert(!picked_up(cs[cs.len() - 1], crow));
        assert(rest.push(cs.last()) =~= cs);
    }
}

proof fn lemma_one_picked(cs: Seq<Collider>, crow: Aabb, i: int)
    requires
        0 <= i < cs.len(),
        picked_up(cs[i], crow),
        forall|j: int| 0 <= j < cs.len() && j != i ==> !picked_up(#[trigger] cs[j], crow),
    ensures
        kept_colliders(cs, crow) == cs.remove(i),
        jewels_taken(cs, crow) == 1,
    decreases cs.len(),
{
    let rest = cs.drop_last();
    if i == cs.len() - 1 {
        assert forall|j: int| 0 <= j < rest.len() implies !picked_up(#[trigger] rest[j], crow) by {
            assert(rest[j] == cs[j]);
        }
        lemma_nothing_picked(rest, crow);
        assert(cs.remove(i) =~= rest);
    } else {
        assert forall|j: int| 0 <= j < rest.len() && j != i implies !picked_up(#[trigger] rest[j], crow) by {
            assert(rest[j] == cs[j]);
        }
        assert(rest[i] == cs[i]);
        lemma_one_picked(rest, crow, i);
        assert(!picked_up(cs[cs.len() - 1], crow));
        assert(rest.remove(i).push(cs.last()) =~= cs.remove(i));
    }
}

/// A jewel that is the only one touching the crow scores exactly one point
/// and leaves the world, so that a second check at the same place scores
/// nothing more.
pub proof fn lemma_jewel_scores_once(w: WorldView, i: int)
    requires
        w.wf(),
        w.player.score < u64::MAX,
        0 <= i < w.colliders.len(),
        picked_up(w.colliders[i], crow_box(w.player)),
        forall|j: int|
            0 <= j < w.colliders.len() && j != i ==> !picked_up(
                #[trigger] w.colliders[j],
                crow_box(w.player),
            ),
    ensures
        collision_step(w).player.score == w.player.score + 1,
        collision_step(w).colliders == w.colliders.remove(i),
        jewels_taken(collision_step(w).colliders, crow_box(w.player)) == 0,
        collision_step(collision_step(w)).player.score == w.player.score + 1,
{
    let crow = crow_box(w.player);
    lemma_one_picked(w.colliders, crow, i);
    let w2 = collision_step(w);
    let left = w.colliders.remove(i);
    assert forall|j: int| 0 <= j < left.len() implies !picked_up(#[trigger] left[j], crow) by {
        if j < i {
            assert(left[j] == w.colliders[j]);
        } else {
            assert(left[j] == w.colliders[j + 1]);
        }
    }
    lemma_nothing_picked(left, crow);
    assert(crow_box(w2.player) == crow);
}

} // verus!
