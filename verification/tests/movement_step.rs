use to_be_free::bundles::PlayerBundle;
use to_be_free::component::{MoveInput, MoveSpeed, Velocity};
use to_be_free::math::{Quat, Vec3};
use to_be_free::movement::resolve_velocity;
use to_be_free::schedules::run_fixed_step;
use to_be_free::world::{compute_velocity_from_input, integrate_velocity, FixedClock, World};

/// 1/sqrt(2) in micro-units: the fixed-point form of a 90-degree yaw
/// rotation quaternion's two non-zero components.
const YAW_90: Quat = Quat {
    x: 0,
    y: 707_107,
    z: 0,
    w: 707_107,
};

fn vec_f64(v: Vec3) -> (f64, f64, f64) {
    (v.x as f64 / 1e6, v.y as f64 / 1e6, v.z as f64 / 1e6)
}

#[test]
fn compute_velocity_from_input_rotates_and_scales() {
    let mut world = World::new(60);
    // Local intent along +X, rotate +90 degrees around Y -> world -Z.
    let mut bundle = PlayerBundle::new(Vec3 { x: 0, y: 0, z: 0 }, 10_000_000);
    bundle.input = MoveInput(Vec3 {
        x: 1_000_000,
        y: 0,
        z: 0,
    });
    bundle.transform.rotation = YAW_90;
    world.spawn(bundle);

    compute_velocity_from_input(&mut world);

    let (vx, vy, vz) = vec_f64(world.entities[0].velocity.0);
    let (ex, ey, ez) = (0.0, 0.0, -10.0);
    let d = ((vx - ex).powi(2) + (vy - ey).powi(2) + (vz - ez).powi(2)).sqrt();
    assert!(
        d < 1e-5,
        "Expected velocity ({ex},{ey},{ez}), got ({vx},{vy},{vz})"
    );
}

#[test]
fn integrate_velocity_moves_translation_by_fixed_dt() {
    let mut world = World::new(60);
    // A fixed clock at 60 Hz with one step latched: delta is 1/60 s.
    world.clock.latch_step();

    let mut bundle = PlayerBundle::new(Vec3 { x: 0, y: 0, z: 0 }, 0);
    bundle.velocity = Velocity(Vec3 {
        x: 6_000_000, // 6 units/sec
        y: 0,
        z: 0,
    });
    world.spawn(bundle);

    integrate_velocity(&mut world);

    let (px, py, pz) = vec_f64(world.entities[0].transform.translation);
    let (ex, ey, ez) = (0.1, 0.0, 0.0); // 6 * (1/60) = 0.1
    let d = ((px - ex).powi(2) + (py - ey).powi(2) + (pz - ez).powi(2)).sqrt();
    assert!(
        d < 1e-6,
        "Expected translation ({ex},{ey},{ez}), got ({px},{py},{pz})"
    );
}

#[test]
fn integrate_velocity_does_nothing_when_dt_is_zero() {
    let mut world = World::new(60);
    // A fresh clock has zero delta until a step is latched.
    assert_eq!(world.clock.latched, false);

    let start = Vec3 {
        x: 1_000_000,
        y: 2_000_000,
        z: 3_000_000,
    };
    let mut bundle = PlayerBundle::new(start, 0);
    bundle.velocity = Velocity(Vec3 {
        x: 100_000_000,
        y: 0,
        z: 0,
    });
    world.spawn(bundle);

    integrate_velocity(&mut world);

    let got = world.entities[0].transform.translation;
    assert_eq!(got, start, "With dt=0, translation should not change");
}

/// A non-zero intent resolves to a velocity whose length is the move speed,
/// up to fixed-point rounding — diagonals get no speed boost.
#[test]
fn diagonal_velocity_magnitude_equals_speed() {
    let input = MoveInput(Vec3 {
        x: 707_107,
        y: 0,
        z: -707_107,
    });
    let speed = MoveSpeed(10_000_000);
    let identity = Quat {
        x: 0,
        y: 0,
        z: 0,
        w: 1_000_000,
    };
    let vel = resolve_velocity(&input, &speed, &identity);
    let (vx, vy, vz) = vec_f64(vel);
    let len = (vx * vx + vy * vy + vz * vz).sqrt();
    assert!((len - 10.0).abs() < 2e-5, "speed was {len}");
}

/// Identical (intent, speed, orientation) triples always resolve to the
/// identical velocity.
#[test]
fn resolver_is_deterministic() {
    let input = MoveInput(Vec3 {
        x: 577_350,
        y: 577_350,
        z: -577_350,
    });
    let speed = MoveSpeed(3_500_000);
    let first = resolve_velocity(&input, &speed, &YAW_90);
    let second = resolve_velocity(&input, &speed, &YAW_90);
    assert_eq!(first, second);
}

/// One fixed step integrates the velocity resolved in that same step, not
/// the stale velocity from before it.
#[test]
fn fixed_step_never_integrates_stale_velocity() {
    let mut world = World::new(60);
    let mut bundle = PlayerBundle::new(Vec3 { x: 0, y: 0, z: 0 }, 2_000_000);
    bundle.input = MoveInput(Vec3 {
        x: 1_000_000,
        y: 0,
        z: 0,
    });
    // A stale velocity that would move the entity the wrong way.
    bundle.velocity = Velocity(Vec3 {
        x: -999_000,
        y: 0,
        z: 0,
    });
    world.spawn(bundle);

    run_fixed_step(&mut world);

    // Resolver first: intent +X at 2 units/s under the identity rotation
    // gives velocity (2, 0, 0); one 1/60 s step then moves x by
    // 2_000_000 / 60 = 33_333 micro-units (truncated).
    assert_eq!(world.entities[0].velocity.0.x, 2_000_000);
    assert_eq!(world.entities[0].transform.translation.x, 33_333);
}

/// The clock accumulator consumes whole steps and carries the remainder.
#[test]
fn accumulator_consumes_whole_steps_and_keeps_remainder() {
    let mut clock = FixedClock::from_hz(60);
    let step_ns = 1_000_000_000 / 60;
    // Two and a half steps of wall-clock time.
    let steps = clock.accumulate(2 * step_ns + step_ns / 2);
    assert_eq!(steps, 2);
    assert_eq!(clock.overstep_ns, step_ns / 2);
    // The carried remainder plus half a step makes one more whole step.
    let steps = clock.accumulate(step_ns / 2);
    assert_eq!(steps, 1);
    assert_eq!(clock.overstep_ns, 0);
}
