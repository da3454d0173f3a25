use to_be_free::component::MoveInput;
use to_be_free::input::{
    sample_intent, PlayerKeybindings, KEY_A, KEY_D, KEY_S, KEY_SHIFT_LEFT, KEY_SPACE, KEY_W,
};
use to_be_free::math::Vec3;
use to_be_free::world::{read_player_input, World};

const ARROW_UP: u32 = 38;

fn world_with_player() -> (World, usize) {
    let mut world = World::new(60);
    // One player with initial (non-zero) input so we can detect "unchanged".
    let mut bundle = to_be_free::bundles::PlayerBundle::new(Vec3 { x: 0, y: 0, z: 0 }, 0);
    bundle.input = MoveInput(Vec3 {
        x: 9_000_000,
        y: 9_000_000,
        z: 9_000_000,
    });
    let handle = world.spawn(bundle);
    (world, handle)
}

#[test]
fn early_return_when_bindings_missing() {
    let (mut world, e) = world_with_player();

    // No PlayerKeybindings inserted -> system must perform no writes.
    read_player_input(&mut world, &vec![KEY_W]);

    let got = world.entities[e].input.0;
    assert_eq!(
        got,
        Vec3 {
            x: 9_000_000,
            y: 9_000_000,
            z: 9_000_000
        }
    );
}

#[test]
fn forward_is_negative_z() {
    let (mut world, e) = world_with_player();
    world.keybindings = Some(PlayerKeybindings::default());

    read_player_input(&mut world, &vec![KEY_W]);

    let got = world.entities[e].input.0;
    assert_eq!(
        got,
        Vec3 {
            x: 0,
            y: 0,
            z: -1_000_000
        }
    );
}

#[test]
fn diagonal_is_normalized_no_speed_boost() {
    let (mut world, e) = world_with_player();
    world.keybindings = Some(PlayerKeybindings::default());

    read_player_input(&mut world, &vec![KEY_W, KEY_D]);

    let got = world.entities[e].input.0;
    let gx = got.x as f64 / 1e6;
    let gy = got.y as f64 / 1e6;
    let gz = got.z as f64 / 1e6;

    // Expected direction: (1, 0, -1) normalized.
    let n = (2.0f64).sqrt();
    let (ex, ey, ez) = (1.0 / n, 0.0, -1.0 / n);
    let d = ((gx - ex).powi(2) + (gy - ey).powi(2) + (gz - ez).powi(2)).sqrt();
    assert!(d < 1e-6, "got=({gx},{gy},{gz}) expected=({ex},{ey},{ez})");

    // Also ensure it's unit length (or zero).
    let len = (gx * gx + gy * gy + gz * gz).sqrt();
    assert!((len - 1.0).abs() < 1e-6);
}

#[test]
fn opposite_keys_cancel_out() {
    let (mut world, e) = world_with_player();
    world.keybindings = Some(PlayerKeybindings::default());

    read_player_input(&mut world, &vec![KEY_W, KEY_S]);

    let got = world.entities[e].input.0;
    assert_eq!(got, Vec3 { x: 0, y: 0, z: 0 });
}

#[test]
fn custom_bindings_are_respected() {
    let (mut world, e) = world_with_player();

    // Remap: forward = ArrowUp instead of W.
    let mut bindings = PlayerKeybindings::default();
    bindings.forward = ARROW_UP;
    world.keybindings = Some(bindings);

    read_player_input(&mut world, &vec![ARROW_UP]);

    let got = world.entities[e].input.0;
    assert_eq!(
        got,
        Vec3 {
            x: 0,
            y: 0,
            z: -1_000_000
        }
    );
}

#[test]
fn applies_to_all_players() {
    let mut world = World::new(60);
    world.keybindings = Some(PlayerKeybindings::default());
    let zero = Vec3 { x: 0, y: 0, z: 0 };
    let e1 = world.spawn(to_be_free::bundles::PlayerBundle::new(zero, 0));
    let e2 = world.spawn(to_be_free::bundles::PlayerBundle::new(zero, 0));

    read_player_input(&mut world, &vec![KEY_D]);

    let a = world.entities[e1].input.0;
    let b = world.entities[e2].input.0;
    let right = Vec3 {
        x: 1_000_000,
        y: 0,
        z: 0,
    };
    assert_eq!(a, right);
    assert_eq!(b, right);
}

/// Every held-key combination over the six defaults gives a zero or
/// unit-length intent.
#[test]
fn all_key_combinations_are_normalized_or_zero() {
    let keys = [KEY_W, KEY_S, KEY_A, KEY_D, KEY_SPACE, KEY_SHIFT_LEFT];
    let kb = PlayerKeybindings::default();
    for mask in 0u32..64 {
        let held: Vec<u32> = (0..6).filter(|i| mask & (1 << i) != 0).map(|i| keys[i]).collect();
        let dir = sample_intent(&kb, &held);
        let len = ((dir.x as f64).powi(2) + (dir.y as f64).powi(2) + (dir.z as f64).powi(2))
            .sqrt()
            / 1e6;
        assert!(
            len == 0.0 || (len - 1.0).abs() < 1e-6,
            "mask={mask} gave length {len}"
        );
    }
}

/// All three opposite pairs held at once cancel to the zero vector.
#[test]
fn all_opposite_pairs_cancel() {
    let kb = PlayerKeybindings::default();
    let held = vec![KEY_W, KEY_S, KEY_A, KEY_D, KEY_SPACE, KEY_SHIFT_LEFT];
    let dir = sample_intent(&kb, &held);
    assert_eq!(dir, Vec3 { x: 0, y: 0, z: 0 });
}

/// No keys held gives the zero intent.
#[test]
fn no_keys_gives_zero_intent() {
    let kb = PlayerKeybindings::default();
    let dir = sample_intent(&kb, &vec![]);
    assert_eq!(dir, Vec3 { x: 0, y: 0, z: 0 });
}

/// A key bound to two actions counts for the action earliest in the
/// dispatch order (right before forward).
#[test]
fn shared_key_dispatches_to_first_action() {
    let mut kb = PlayerKeybindings::default();
    kb.forward = KEY_D; // same physical key as "right"
    let dir = sample_intent(&kb, &vec![KEY_D]);
    assert_eq!(
        dir,
        Vec3 {
            x: 1_000_000,
            y: 0,
            z: 0
        }
    );
}
