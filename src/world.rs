use vstd::prelude::*;

use crate::controls::{turn_of, Controls};
use crate::tank::{steer, Tank, TankModel};

verus! {

/// Speed of every projectile, in world units per second.
pub const BALL_SPEED: u32 = 400;

/// A projectile in flight.
///
/// It was fired from the tank's position at that tick, along the tank's
/// heading at that tick (`heading`, in turn steps), at `speed` units per
/// second. `flight` is the time, in nanoseconds, that it has travelled
/// since: its position is the firing position plus
/// `speed * flight` along that heading.
#[derive(Clone, Copy, Debug, PartialEq, Eq, Structural)]
pub struct Projectile {
    pub heading: i64,
    pub speed: u32,
    pub flight: u64,
}

/// Mathematical value of a [`Projectile`].
pub struct ProjectileModel {
    pub heading: int,
    pub speed: nat,
    pub flight: nat,
}

impl View for Projectile {
    type V = ProjectileModel;

    open spec fn view(&self) -> ProjectileModel {
        ProjectileModel {
            heading: self.heading as int,
            speed: self.speed as nat,
            flight: self.flight as nat,
        }
    }
}

/// Mathematical value of a [`World`]: the tank, the projectiles indexed by
/// their id (the order in which they were fired), and the simulated time.
pub struct WorldModel {
    pub tank: TankModel,
    pub shots: Seq<ProjectileModel>,
    pub clock: nat,
}

impl WorldModel {
    /// Every projectile flies at the ball speed and has not flown longer
    /// than the world has existed.
    pub open spec fn wf(self) -> bool {
        forall|i: int|
            0 <= i < self.shots.len() ==> {
                &&& #[trigger] self.shots[i].speed == BALL_SPEED as nat
                &&& self.shots[i].flight <= self.clock
            }
    }
}

/// A fresh projectile fired along `heading`.
pub open spec fn launched(heading: int) -> ProjectileModel {
    ProjectileModel { heading, speed: BALL_SPEED as nat, flight: 0 }
}

/// The weapon rule: one new projectile along the tank's heading when fire
/// is held, none otherwise.
pub open spec fn fire(w: WorldModel, c: Controls) -> WorldModel {
    if c.fire {
        WorldModel { shots: w.shots.push(launched(w.tank.heading)), ..w }
    } else {
        w
    }
}

/// The integrator: the first `count` projectiles fly `delta` nanoseconds
/// further; the others and the tank are left as they are.
pub open spec fn integrate(w: WorldModel, count: nat, delta: nat) -> WorldModel {
    WorldModel {
        shots: Seq::new(
            w.shots.len(),
            |i: int|
                if i < count {
                    ProjectileModel { flight: (w.shots[i].flight + delta) as nat, ..w.shots[i] }
                } else {
                    w.shots[i]
                },
        ),
        clock: w.clock + delta,
        ..w
    }
}

/// One tick: steering, then the weapon, then the integrator, which moves the
/// projectiles that existed before the tick (one fired during the tick
/// starts to move at the next one).
pub open spec fn step(w: WorldModel, c: Controls, delta: nat) -> WorldModel {
    let steered = WorldModel { tank: steer(w.tank, c), ..w };
    integrate(fire(steered, c), w.shots.len(), delta)
}

/// The world after the ticks in `ticks`, in order, each one a pair of the
/// keys held and the time elapsed since the previous tick.
pub open spec fn run(w: WorldModel, ticks: Seq<(Controls, nat)>) -> WorldModel
    decreases ticks.len(),
{
    if ticks.len() == 0 {
        w
    } else {
        step(run(w, ticks.drop_last()), ticks.last().0, ticks.last().1)
    }
}

/// Total time elapsed over `ticks`.
pub open spec fn elapsed(ticks: Seq<(Controls, nat)>) -> nat
    decreases ticks.len(),
{
    if ticks.len() == 0 {
        0
    } else {
        elapsed(ticks.drop_last()) + ticks.last().1
    }
}

/// What one tick did.
#[derive(Clone, Copy, Debug, PartialEq, Eq, Structural)]
pub struct TickReport {
    /// Net turn applied to the heading: -1, 0 or +1.
    pub turn: i8,
    /// Whether the tank took a forward step.
    pub moved: bool,
    /// Id of the projectile fired during the tick, if any.
    pub fired: Option<usize>,
}

/// The whole scene: the tank, the projectiles (never removed, so an id stays
/// valid for the rest of the session) and the simulated time in nanoseconds.
pub struct World {
    tank: Tank,
    projectiles: Vec<Projectile>,
    clock: u64,
}

impl View for World {
    type V = WorldModel;

    closed spec fn view(&self) -> WorldModel {
        WorldModel {
            tank: self.tank@,
            shots: self.projectiles@.map_values(|p: Projectile| p@),
            clock: self.clock as nat,
        }
    }
}

impl World {
    /// Whether one more tick of `delta` nanoseconds fits the machine
    /// integers of the model.
    pub open spec fn can_step(&self, delta: nat) -> bool {
        &&& i64::MIN < self@.tank.heading < i64::MAX
        &&& self@.tank.steps < u64::MAX
        &&& self@.clock + delta <= u64::MAX
        &&& self@.shots.len() < usize::MAX
    }

    /// A new session: the tank at its start, no projectile, time zero.
    pub fn new() -> (r: World)
        ensures
            r@.tank.heading == 0,
            r@.tank.steps == 0,
            r@.shots.len() == 0,
            r@.clock == 0,
            r@.wf(),
    {
        let r = World { tank: Tank::new(), projectiles: Vec::new(), clock: 0 };
        assert(r@.shots =~= Seq::<ProjectileModel>::empty());
        r
    }

    /// The tank.
    pub fn tank(&self) -> (r: Tank)
        ensures
            r@ == self@.tank,
    {
        self.tank
    }

    /// Number of projectiles fired so far.
    pub fn projectile_count(&self) -> (r: usize)
        ensures
            r == self@.shots.len(),
    {
        self.projectiles.len()
    }

    /// The projectile with id `id`.
    pub fn projectile(&self, id: usize) -> (r: Projectile)
        requires
            id < self@.shots.len(),
        ensures
            r@ == self@.shots[id as int],
    {
        self.projectiles[id]
    }

    /// Simulated time, in nanoseconds.
    pub fn clock(&self) -> (r: u64)
        ensures
            r == self@.clock,
    {
        self.clock
    }

    /// The weapon: fires one projectile along the tank's heading if fire is
    /// held, and returns its id.
    pub fn fire(&mut self, c: &Controls) -> (r: Option<usize>)
        requires
            old(self)@.shots.len() < usize::MAX,
        ensures
            final(self)@ == fire(old(self)@, *c),
            r == (if c.fire { Some(old(self)@.shots.len() as usize) } else { None }),
    {
        if c.fire {
            let id = self.projectiles.len();
            self.projectiles.push(Projectile { heading: self.tank.heading, speed: BALL_SPEED, flight: 0 });
            assert(self@.shots =~= old(self)@.shots.push(launched(old(self)@.tank.heading)));
            Some(id)
        } else {
            None
        }
    }

    /// The integrator: the first `count` projectiles fly `delta` nanoseconds
    /// further, and the clock advances by `delta`.
    pub fn integrate(&mut self, count: usize, delta: u64)
        requires
            old(self)@.wf(),
            count <= old(self)@.shots.len(),
            old(self)@.clock + delta <= u64::MAX,
        ensures
            final(self)@ == integrate(old(self)@, count as nat, delta as nat),
            final(self)@.wf(),
    {
        let ghost start = self@;
        let mut i: usize = 0;
        while i < count
            invariant
                i <= count <= start.shots.len(),
                self.tank == old(self).tank,
                self.clock == old(self).clock,
                start == old(self)@,
                start.wf(),
                start.clock + delta <= u64::MAX,
                self.projectiles@.len() == start.shots.len(),
                forall|j: int|
                    0 <= j < i ==> #[trigger] self.projectiles@[j]@ == (ProjectileModel {
                        flight: (start.shots[j].flight + delta) as nat,
                        ..start.shots[j]
                    }),
                forall|j: int| i <= j < self.projectiles@.len() ==> #[trigger] self.projectiles@[j]@ == start.shots[j],
            decreases count - i,
        {
            let mut p = self.projectiles[i];
            assert(p@ == start.shots[i as int]);
            assert(start.shots[i as int].speed == BALL_SPEED as nat);
            p.flight = p.flight + delta;
            self.projectiles.set(i, p);
            i = i + 1;
        }
        self.clock = self.clock + delta;
        assert(self@.shots =~= integrate(start, count as nat, delta as nat).shots);
    }

    /// One tick of the session, with the keys held during it and the time
    /// elapsed since the previous tick: steering, then the weapon, then the
    /// integrator.
    pub fn tick(&mut self, c: &Controls, delta: u64) -> (r: TickReport)
        requires
            old(self)@.wf(),
            old(self).can_step(delta as nat),
        ensures
            final(self)@ == step(old(self)@, *c, delta as nat),
            final(self)@.wf(),
            r.turn as int == turn_of(*c),
            r.moved == c.move_forward,
            r.fired == (if c.fire { Some(old(self)@.shots.len() as usize) } else { None }),
    {
        let turn = c.turn();
        let moved = self.tank.steer(c);
        let existing = self.projectiles.len();
        let fired = self.fire(c);
        self.integrate(existing, delta);
        TickReport { turn, moved, fired }
    }
}

} // verus!
