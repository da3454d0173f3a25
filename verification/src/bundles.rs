//! The full movement attribute set a controllable entity is created with.

use vstd::prelude::*;

use crate::component::{MoveInput, MoveSpeed, Player, Transform, Velocity, SPEED_LIMIT};
use crate::math::{Quat, Vec3, UNIT};

verus! {

/// Everything a controllable entity carries: the player tag, its speed, its
/// movement intent, its velocity and its transform.
#[derive(Clone, Copy, Debug, PartialEq, Eq, Structural)]
pub struct PlayerBundle {
    pub player: Player,
    pub speed: MoveSpeed,
    pub input: MoveInput,
    pub velocity: Velocity,
    pub transform: Transform,
}

impl PlayerBundle {
    /// A freshly created controllable entity: zero intent, zero velocity,
    /// the requested position and speed, identity orientation.
    pub fn new(spawn_translation: Vec3, speed_units_per_sec: i64) -> (b: PlayerBundle)
        requires
            0 <= speed_units_per_sec <= SPEED_LIMIT,
        ensures
            b.player == Player,
            b.speed == MoveSpeed(speed_units_per_sec),
            b.input.0.is_zero(),
            b.velocity.0.is_zero(),
            b.transform.translation == spawn_translation,
            b.transform.rotation == (Quat { x: 0, y: 0, z: 0, w: UNIT }),
            b.wf(),
    {
        PlayerBundle {
            player: Player,
            speed: MoveSpeed(speed_units_per_sec),
            input: MoveInput(Vec3::zero()),
            velocity: Velocity(Vec3::zero()),
            transform: Transform::from_translation(spawn_translation),
        }
    }

    /// The entity's attributes are within the movement pipeline's range.
    pub open spec fn wf(self) -> bool {
        self.input.wf() && self.speed.wf() && self.transform.wf()
    }
}

/// The bundle [`spawn_player`] creates: half a unit above the ground plane,
/// five units per second of speed, and everything else zeroed.
pub open spec fn spawned_player_bundle() -> PlayerBundle {
    PlayerBundle {
        player: Player,
        speed: MoveSpeed(5_000_000),
        input: MoveInput(Vec3 { x: 0, y: 0, z: 0 }),
        velocity: Velocity(Vec3 { x: 0, y: 0, z: 0 }),
        transform: Transform {
            translation: Vec3 { x: 0, y: 500_000, z: 0 },
            rotation: Quat { x: 0, y: 0, z: 0, w: UNIT },
        },
    }
}

/// Spawn the player entity: slightly above the ground plane so it rests on
/// it visually, at five world units per second. Visual decoration (mesh,
/// material) is the host's business.
pub fn spawn_player(w: &mut crate::world::World)
    requires
        old(w).wf(),
    ensures
        final(w).wf(),
        final(w).entities@ == old(w).entities@.push(spawned_player_bundle()),
        final(w).keybindings == old(w).keybindings,
        final(w).clock == old(w).clock,
{
    let bundle = PlayerBundle::new(Vec3 { x: 0, y: 500_000, z: 0 }, 5_000_000);
    let _handle = w.spawn(bundle);
    proof {
        assert(bundle == spawned_player_bundle());
    }
}

} // verus!
