use vstd::prelude::*;

use crate::controls::Controls;
use crate::world::{elapsed, launched, run, step, ProjectileModel, WorldModel, BALL_SPEED};

verus! {

/// With no key held, any number of ticks leaves the tank where it was and
/// facing as it was.
pub proof fn idle_ticks_keep_tank(w: WorldModel, ticks: Seq<(Controls, nat)>)
    requires
        forall|i: int| 0 <= i < ticks.len() ==> (#[trigger] ticks[i]).0.is_idle(),
    ensures
        run(w, ticks).tank == w.tank,
    decreases ticks.len(),
{
    if ticks.len() > 0 {
        idle_ticks_keep_tank(w, ticks.drop_last());
        assert(ticks.last() == ticks[ticks.len() - 1]);
    }
}

/// Holding rotate-left alone for n ticks turns the tank by n turn steps:
/// its rotation becomes the starting rotation composed with the one-step
/// rotation n times.
pub proof fn left_turns_accumulate(w: WorldModel, ticks: Seq<(Controls, nat)>)
    requires
        forall|i: int|
            0 <= i < ticks.len() ==> (#[trigger] ticks[i]).0.rotate_left && !ticks[i].0.rotate_right,
    ensures
        run(w, ticks).tank.heading == w.tank.heading + ticks.len(),
    decreases ticks.len(),
{
    if ticks.len() > 0 {
        left_turns_accumulate(w, ticks.drop_last());
        assert(ticks.last() == ticks[ticks.len() - 1]);
    }
}

/// Holding rotate-left and rotate-right together, for any number of ticks,
/// leaves the rotation unchanged.
pub proof fn opposed_turns_cancel(w: WorldModel, ticks: Seq<(Controls, nat)>)
    requires
        forall|i: int|
            0 <= i < ticks.len() ==> (#[trigger] ticks[i]).0.rotate_left && ticks[i].0.rotate_right,
    ensures
        run(w, ticks).tank.heading == w.tank.heading,
    decreases ticks.len(),
{
    if ticks.len() > 0 {
        opposed_turns_cancel(w, ticks.drop_last());
        assert(ticks.last() == ticks[ticks.len() - 1]);
    }
}

/// Firing on a tick adds exactly one projectile, at the end: it flies at the
/// ball speed along the tank's heading on that tick, after steering, and has
/// not moved yet. The projectiles fired before keep their ids.
pub proof fn fire_adds_one_shot(w: WorldModel, c: Controls, delta: nat)
    requires
        c.fire,
    ensures
        step(w, c, delta).shots.len() == w.shots.len() + 1,
        step(w, c, delta).shots.last() == launched(step(w, c, delta).tank.heading),
        step(w, c, delta).shots.last().speed == BALL_SPEED as nat,
        step(w, c, delta).shots.last().flight == 0,
{
}

/// A projectile that exists keeps its heading and speed whatever the keys
/// do afterwards, and its flight time grows by exactly the time elapsed:
/// its position is its firing position plus its velocity times that time,
/// whatever the tank does meanwhile.
pub proof fn flight_tracks_elapsed_time(w: WorldModel, ticks: Seq<(Controls, nat)>, id: int)
    requires
        0 <= id < w.shots.len(),
    ensures
        w.shots.len() <= run(w, ticks).shots.len(),
        run(w, ticks).shots[id] == (ProjectileModel {
            flight: w.shots[id].flight + elapsed(ticks),
            ..w.shots[id]
        }),
    decreases ticks.len(),
{
    if ticks.len() > 0 {
        flight_tracks_elapsed_time(w, ticks.drop_last(), id);
    }
}

/// Holding fire for n ticks adds exactly n projectiles, one per tick, each
/// along the tank's heading on its own tick.
pub proof fn held_fire_shoots_every_tick(w: WorldModel, ticks: Seq<(Controls, nat)>)
    requires
        forall|i: int| 0 <= i < ticks.len() ==> (#[trigger] ticks[i]).0.fire,
    ensures
        run(w, ticks).shots.len() == w.shots.len() + ticks.len(),
        forall|i: int|
            0 <= i < ticks.len() ==> {
                &&& (#[trigger] run(w, ticks).shots[w.shots.len() + i]).heading == run(
                    w,
                    ticks.take(i + 1),
                ).tank.heading
                &&& run(w, ticks).shots[w.shots.len() + i].speed == BALL_SPEED as nat
            },
    decreases ticks.len(),
{
    if ticks.len() > 0 {
        let n = ticks.len() as int;
        let prefix = ticks.drop_last();
        held_fire_shoots_every_tick(w, prefix);
        assert(ticks.last() == ticks[n - 1]);
        assert(ticks.take(n) =~= ticks);
        assert forall|i: int| 0 <= i < n implies {
            &&& (#[trigger] run(w, ticks).shots[w.shots.len() + i]).heading == run(
                w,
                ticks.take(i + 1),
            ).tank.heading
            &&& run(w, ticks).shots[w.shots.len() + i].speed == BALL_SPEED as nat
        } by {
            if i < n - 1 {
                assert(prefix.take(i + 1) =~= ticks.take(i + 1));
                assert(run(w, prefix).shots[w.shots.len() + i].heading == run(w, prefix.take(i + 1)).tank.heading);
            }
        }
    }
}

} // verus!
