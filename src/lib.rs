//! Exact model of a small steering-and-shooting arcade core.
//!
//! A steerable tank turns in fixed angular steps, moves forward in fixed
//! distance steps and fires projectiles that fly in a straight line at a
//! fixed speed. The model keeps every quantity as a whole number: the
//! heading as a count of turn steps, the distance as a count of forward
//! steps and the flight time of each projectile in nanoseconds. A host that
//! draws the scene turns these counts into coordinates.

mod controls;
mod laws;
mod tank;
mod world;

pub use controls::{turn_of, Controls};
pub use tank::{steer, Tank, TankModel, MOVE_STEP, TURN_STEP_MILLIRADIANS};
pub use world::{
    elapsed, fire, integrate, launched, run, step, Projectile, ProjectileModel, TickReport, World,
    WorldModel, BALL_SPEED,
};
pub use laws::{
    fire_adds_one_shot, flight_tracks_elapsed_time, held_fire_shoots_every_tick,
    idle_ticks_keep_tank, left_turns_accumulate, opposed_turns_cancel,
};
