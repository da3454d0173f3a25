use std::collections::hash_map::DefaultHasher;
use std::hash::Hash;

use to_be_free::bundles::{spawn_player, PlayerBundle};
use to_be_free::component::{MoveInput, MoveSpeed, Player, Velocity};
use to_be_free::input::{PlayerKeybindings, KEY_W};
use to_be_free::math::{Quat, Vec3};
use to_be_free::schedules::{
    build_app, schedule_of_set, system_set, systems_in_schedule, update, AppPlugin, AppSet,
    PlayerPlugin, ScheduleLabel, SystemId,
};
use to_be_free::world::World;

#[test]
fn player_bundle_new_sets_expected_defaults() {
    let spawn = Vec3 {
        x: 1_000_000,
        y: 2_000_000,
        z: 3_000_000,
    };
    let speed = 7_500_000;

    let b = PlayerBundle::new(spawn, speed);

    assert_eq!(b.player, Player);
    assert_eq!(b.speed, MoveSpeed(speed));
    assert_eq!(b.input, MoveInput(Vec3 { x: 0, y: 0, z: 0 }));
    assert_eq!(b.velocity, Velocity(Vec3 { x: 0, y: 0, z: 0 }));
    assert_eq!(b.transform.translation, spawn);
}

#[test]
fn spawn_player_spawns_entity_with_required_components_and_assets() {
    let mut world = World::new(60);

    spawn_player(&mut world);

    assert_eq!(
        world.entities.len(),
        1,
        "spawn_player should spawn exactly one entity with the player attributes"
    );
    let e = &world.entities[0];

    // Check gameplay components.
    assert_eq!(e.speed, MoveSpeed(5_000_000));
    assert_eq!(e.input, MoveInput(Vec3 { x: 0, y: 0, z: 0 }));
    assert_eq!(e.velocity, Velocity(Vec3 { x: 0, y: 0, z: 0 }));

    // Check spawn position contract: half a unit above the ground plane.
    assert_eq!(
        e.transform.translation,
        Vec3 {
            x: 0,
            y: 500_000,
            z: 0
        }
    );
}

#[test]
fn spawn_player_is_idempotent_per_call_spawns_one_more_player() {
    let mut world = World::new(60);

    spawn_player(&mut world);
    spawn_player(&mut world);

    assert_eq!(world.entities.len(), 2);
}

// --- Compile-time trait contracts ---
fn assert_copy<T: Copy>() {}
fn assert_default<T: Default>() {}
fn assert_eq_hash<T: Eq + Hash>() {}
fn assert_partial_eq<T: PartialEq>() {}

#[test]
fn trait_contracts_hold() {
    assert_copy::<Player>();
    assert_default::<Player>();
    assert_eq_hash::<Player>();

    assert_copy::<MoveSpeed>();
    assert_partial_eq::<MoveSpeed>();

    assert_copy::<MoveInput>();
    assert_partial_eq::<MoveInput>();

    assert_copy::<Velocity>();
    assert_partial_eq::<Velocity>();

    let mut h = DefaultHasher::new();
    Player.hash(&mut h);
}

#[test]
fn can_spawn_and_query_player_components() {
    let mut world = World::new(60);

    let mut bundle = PlayerBundle::new(Vec3 { x: 0, y: 0, z: 0 }, 3_500_000);
    bundle.input = MoveInput(Vec3 {
        x: 1_000_000,
        y: 0,
        z: 0,
    });
    bundle.velocity = Velocity(Vec3 {
        x: 0,
        y: 0,
        z: -2_000_000,
    });
    let e = world.spawn(bundle);

    let got = &world.entities[e];
    assert_eq!(got.speed, MoveSpeed(3_500_000));
    assert_eq!(
        got.input,
        MoveInput(Vec3 {
            x: 1_000_000,
            y: 0,
            z: 0
        })
    );
    assert_eq!(
        got.velocity,
        Velocity(Vec3 {
            x: 0,
            y: 0,
            z: -2_000_000
        })
    );
}

#[test]
fn player_plugin_inserts_keybindings_resource() {
    let mut world = World::new(60);

    PlayerPlugin.build(&mut world);

    assert!(
        world.keybindings.is_some(),
        "PlayerPlugin must insert PlayerKeybindings so the input system can run."
    );
    assert_eq!(world.keybindings.unwrap(), PlayerKeybindings::default());
}

#[test]
fn player_plugin_runs_with_app_prereqs_and_spawns_player() {
    let mut world = World::new(60);
    AppPlugin.build(&mut world);
    PlayerPlugin.build(&mut world);

    // Run one frame; the variable phase is safe to run right away.
    update(&mut world, &vec![], 1_000_000);

    assert_eq!(
        world.entities.len(),
        1,
        "Setup should spawn exactly one Player"
    );
}

#[test]
fn build_app_wires_clock_bindings_and_player() {
    let world = build_app();
    assert_eq!(world.clock.freq_hz, 60);
    assert_eq!(world.clock.latched, false);
    assert_eq!(world.keybindings.unwrap(), PlayerKeybindings::default());
    assert_eq!(world.entities.len(), 1);
}

#[test]
fn registration_orders_resolver_before_integrator() {
    let fixed = systems_in_schedule(ScheduleLabel::FixedUpdate);
    assert_eq!(
        fixed,
        vec![
            SystemId::ComputeVelocityFromInput,
            SystemId::IntegrateVelocity
        ]
    );
    let varying = systems_in_schedule(ScheduleLabel::Update);
    assert_eq!(varying, vec![SystemId::ReadPlayerInput]);
    assert_eq!(system_set(SystemId::ReadPlayerInput), Some(AppSet::Input));
    assert_eq!(
        system_set(SystemId::IntegrateVelocity),
        Some(AppSet::FixedMovement)
    );
    assert_eq!(schedule_of_set(AppSet::Input), ScheduleLabel::Update);
    assert_eq!(
        schedule_of_set(AppSet::FixedMovement),
        ScheduleLabel::FixedUpdate
    );
}

/// A whole tick with enough accumulated time runs input sampling at the
/// variable rate and movement at the fixed rate: intent sampled once,
/// position advanced once per whole step.
#[test]
fn update_samples_input_then_steps_movement() {
    let mut world = World::new(60);
    AppPlugin.build(&mut world);
    PlayerPlugin.build(&mut world);
    // Speed up the player for a visible displacement.
    world.entities[0].speed = MoveSpeed(6_000_000);
    world.entities[0].transform.rotation = Quat {
        x: 0,
        y: 0,
        z: 0,
        w: 1_000_000,
    };

    // Exactly two fixed steps of wall-clock time, W held: forward is -Z.
    let two_steps = 2 * (1_000_000_000 / 60);
    update(&mut world, &vec![KEY_W], two_steps);

    let e = &world.entities[0];
    assert_eq!(
        e.input,
        MoveInput(Vec3 {
            x: 0,
            y: 0,
            z: -1_000_000
        })
    );
    // Each step moves z by -6_000_000 / 60 = -100_000 micro-units.
    assert_eq!(e.transform.translation.z, -200_000);
    assert_eq!(world.clock.steps_run, 2);
}
