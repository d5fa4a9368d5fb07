use vstd::prelude::*;

verus! {

/// The four keys read at each tick: whether each one is held.
#[derive(Clone, Copy, Debug, PartialEq, Eq, Structural)]
pub struct Controls {
    pub rotate_left: bool,
    pub rotate_right: bool,
    pub move_forward: bool,
    pub fire: bool,
}

/// Net turn asked for by the keys: +1 to the left, -1 to the right, and 0
/// when neither or both of the two rotation keys are held.
pub open spec fn turn_of(c: Controls) -> int {
    (if c.rotate_left { 1int } else { 0int }) - (if c.rotate_right { 1int } else { 0int })
}

impl Controls {
    /// No key held.
    pub fn idle() -> (r: Controls)
        ensures
            !r.rotate_left && !r.rotate_right && !r.move_forward && !r.fire,
    {
        Controls { rotate_left: false, rotate_right: false, move_forward: false, fire: false }
    }

    /// True when no key is held.
    pub open spec fn is_idle(self) -> bool {
        !self.rotate_left && !self.rotate_right && !self.move_forward && !self.fire
    }

    /// Net turn direction for this tick.
    pub fn turn(&self) -> (r: i8)
        ensures
            r as int == turn_of(*self),
    {
        let mut t: i8 = 0;
        if self.rotate_left {
            t = t + 1;
        }
        if self.rotate_right {
            t = t - 1;
        }
        t
    }
}

} // verus!
