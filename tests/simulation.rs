use tanker::{Controls, Tank, World, BALL_SPEED, MOVE_STEP, TURN_STEP_MILLIRADIANS};

const TICK: u64 = 15_625_000;

fn keys(rotate_left: bool, rotate_right: bool, move_forward: bool, fire: bool) -> Controls {
    Controls { rotate_left, rotate_right, move_forward, fire }
}

#[test]
fn turn_direction_from_keys() {
    assert_eq!(keys(false, false, false, false).turn(), 0);
    assert_eq!(keys(true, false, false, false).turn(), 1);
    assert_eq!(keys(false, true, false, false).turn(), -1);
    assert_eq!(keys(true, true, true, true).turn(), 0);
}

#[test]
fn idle_controls_hold_nothing() {
    assert_eq!(Controls::idle(), keys(false, false, false, false));
}

#[test]
fn new_world_is_empty() {
    let w = World::new();
    assert_eq!(w.tank(), Tank { heading: 0, steps: 0 });
    assert_eq!(w.projectile_count(), 0);
    assert_eq!(w.clock(), 0);
}

#[test]
fn tank_steer_turns_and_steps() {
    let mut t = Tank::new();
    assert!(t.steer(&keys(false, true, true, false)));
    assert_eq!(t, Tank { heading: -1, steps: 1 });
    assert!(!t.steer(&keys(true, false, false, true)));
    assert_eq!(t, Tank { heading: 0, steps: 1 });
}

#[test]
fn idle_ticks_leave_tank_unchanged() {
    let mut w = World::new();
    w.tick(&keys(true, false, true, false), TICK);
    let before = w.tank();
    for _ in 0..10 {
        let r = w.tick(&Controls::idle(), TICK);
        assert_eq!(r.turn, 0);
        assert!(!r.moved);
        assert_eq!(r.fired, None);
    }
    assert_eq!(w.tank(), before);
    assert_eq!(w.projectile_count(), 0);
}

#[test]
fn rotate_left_accumulates() {
    let mut w = World::new();
    for _ in 0..7 {
        w.tick(&keys(true, false, false, false), TICK);
    }
    assert_eq!(w.tank().heading, 7);
    assert_eq!(w.tank().steps, 0);
}

#[test]
fn opposed_rotation_cancels() {
    let mut w = World::new();
    w.tick(&keys(false, true, false, false), TICK);
    for _ in 0..9 {
        let r = w.tick(&keys(true, true, false, false), TICK);
        assert_eq!(r.turn, 0);
    }
    assert_eq!(w.tank().heading, -1);
}

#[test]
fn firing_once_adds_one_projectile() {
    let mut w = World::new();
    w.tick(&keys(true, false, false, false), TICK);
    w.tick(&keys(true, false, false, false), TICK);
    let r = w.tick(&keys(true, false, false, true), TICK);
    assert_eq!(r.fired, Some(0));
    assert_eq!(w.projectile_count(), 1);
    let p = w.projectile(0);
    assert_eq!(p.heading, 3);
    assert_eq!(p.speed, BALL_SPEED);
    assert_eq!(p.speed, 400);
    assert_eq!(p.flight, 0);
}

#[test]
fn flight_time_grows_with_elapsed_time_only() {
    let mut w = World::new();
    w.tick(&keys(false, false, false, true), 1_000);
    let fired = w.projectile(0);
    w.tick(&keys(true, false, true, false), 250_000_000);
    w.tick(&keys(false, true, true, false), 500_000_000);
    w.tick(&keys(true, false, false, false), 250_000_000);
    let p = w.projectile(0);
    assert_eq!(p.heading, fired.heading);
    assert_eq!(p.speed, fired.speed);
    assert_eq!(p.flight, 1_000_000_000);
    assert_eq!(w.clock(), 1_000_001_000);
}

#[test]
fn projectile_starts_moving_next_tick() {
    let mut w = World::new();
    w.tick(&keys(false, false, false, true), TICK);
    assert_eq!(w.projectile(0).flight, 0);
    w.tick(&Controls::idle(), TICK);
    assert_eq!(w.projectile(0).flight, TICK);
}

#[test]
fn held_fire_spawns_one_per_tick() {
    let mut w = World::new();
    let pattern = [
        keys(false, false, false, true),
        keys(true, false, false, true),
        keys(true, false, true, true),
        keys(false, true, false, true),
        keys(false, true, false, true),
    ];
    let mut headings = Vec::new();
    for (n, c) in pattern.iter().enumerate() {
        let r = w.tick(c, TICK);
        assert_eq!(r.fired, Some(n));
        headings.push(w.tank().heading);
    }
    assert_eq!(w.projectile_count(), 5);
    assert_eq!(headings, vec![0, 1, 2, 1, 0]);
    for (n, h) in headings.iter().enumerate() {
        assert_eq!(w.projectile(n).heading, *h);
        assert_eq!(w.projectile(n).speed, 400);
    }
}

#[test]
fn forward_then_fire_scenario() {
    let mut w = World::new();
    let r = w.tick(&keys(false, false, true, true), TICK);
    assert!(r.moved);
    assert_eq!(r.fired, Some(0));
    assert_eq!(w.tank(), Tank { heading: 0, steps: 1 });

    // Coordinates from the model: start at (0, -50), one step along heading 0.
    let angle = w.tank().heading as f32 * TURN_STEP_MILLIRADIANS as f32 / 1000.0;
    let x = 0.0 + w.tank().steps as f32 * MOVE_STEP as f32 * angle.cos();
    let y = -50.0 + w.tank().steps as f32 * MOVE_STEP as f32 * angle.sin();
    assert_eq!((x, y), (2.0, -50.0));

    let p = w.projectile(0);
    let heading = p.heading as f32 * TURN_STEP_MILLIRADIANS as f32 / 1000.0;
    let velocity = (p.speed as f32 * heading.cos(), p.speed as f32 * heading.sin());
    assert_eq!(velocity, (400.0, 0.0));
}

#[test]
fn integrate_moves_only_the_first_projectiles() {
    let mut w = World::new();
    w.tick(&keys(false, false, false, true), TICK);
    w.tick(&keys(false, false, false, true), TICK);
    w.integrate(1, 40);
    assert_eq!(w.projectile(0).flight, TICK + 40);
    assert_eq!(w.projectile(1).flight, 0);
    assert_eq!(w.clock(), 2 * TICK + 40);
}

#[test]
fn fire_without_key_does_nothing() {
    let mut w = World::new();
    assert_eq!(w.fire(&keys(true, true, true, false)), None);
    assert_eq!(w.projectile_count(), 0);
    assert_eq!(w.fire(&keys(false, false, false, true)), Some(0));
    assert_eq!(w.projectile(0).flight, 0);
}
