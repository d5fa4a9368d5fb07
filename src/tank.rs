use vstd::prelude::*;

use crate::controls::{turn_of, Controls};

verus! {

/// Angle of one turn step, in milliradians (a turn step is 0.05 radian).
pub const TURN_STEP_MILLIRADIANS: u32 = 50;

/// Length of one forward step, in world units.
pub const MOVE_STEP: u32 = 2;

/// The steerable tank.
///
/// `heading` counts turn steps from the starting orientation, positive to
/// the left: the rotation is the one-step rotation composed `heading`
/// times. `steps` counts the forward steps taken so far; the position only
/// ever changes by one such step along the heading of that tick.
#[derive(Clone, Copy, Debug, PartialEq, Eq, Structural)]
pub struct Tank {
    pub heading: i64,
    pub steps: u64,
}

/// Mathematical value of a [`Tank`].
pub struct TankModel {
    pub heading: int,
    pub steps: nat,
}

impl View for Tank {
    type V = TankModel;

    open spec fn view(&self) -> TankModel {
        TankModel { heading: self.heading as int, steps: self.steps as nat }
    }
}

/// One tick of steering: the heading moves by the net turn of the keys, and
/// one forward step is taken when move-forward is held.
pub open spec fn steer(t: TankModel, c: Controls) -> TankModel {
    TankModel {
        heading: t.heading + turn_of(c),
        steps: if c.move_forward { t.steps + 1 } else { t.steps },
    }
}

impl Tank {
    /// A tank at its starting orientation that has not moved.
    pub fn new() -> (r: Tank)
        ensures
            r.heading == 0,
            r.steps == 0,
    {
        Tank { heading: 0, steps: 0 }
    }

    /// Applies one tick of steering; returns whether a forward step was taken.
    pub fn steer(&mut self, c: &Controls) -> (moved: bool)
        requires
            i64::MIN < old(self).heading < i64::MAX,
            old(self).steps < u64::MAX,
        ensures
            final(self)@ == steer(old(self)@, *c),
            moved == c.move_forward,
    {
        let turn = c.turn();
        self.heading = self.heading + turn as i64;
        if c.move_forward {
            self.steps = self.steps + 1;
        }
        c.move_forward
    }
}

} // verus!
