//! Per-entity movement attributes.
//!
//! Coordinate conventions: +X is right, +Y is up, forward is -Z. All values
//! are fixed point, in micro-units (see [`crate::math::UNIT`]).

use vstd::prelude::*;

use crate::math::{Quat, Vec3, UNIT};

verus! {

/// Largest speed a controllable entity may carry: one million world units
/// per second, in micro-units. Keeps every product in the resolver well
/// inside the 128-bit intermediate range.
pub const SPEED_LIMIT: i64 = 1_000_000_000_000;

/// Largest magnitude a movement-intent component may carry. The sampler
/// only writes normalized intents (components at most one unit), but a host
/// may seed larger ones; this cap is what the resolver's arithmetic admits.
pub const INPUT_COMP_LIMIT: i64 = 16_000_000;

/// Largest magnitude an orientation component may carry: twice the unit
/// scale, which admits any rounding of a unit quaternion with a wide margin.
pub const QUAT_COMP_LIMIT: i64 = 2_000_000;

/// Tag for the user-controlled player entity.
#[derive(Clone, Copy, Debug, PartialEq, Eq, Structural, Default, Hash)]
pub struct Player;

/// Movement speed in world units per second (micro-units, non-negative).
#[derive(Clone, Copy, Debug, PartialEq, Eq, Structural)]
pub struct MoveSpeed(pub i64);

/// Local-space movement intent produced by input sampling. An intent is a
/// direction, not a velocity: when non-zero it is normalized (length one up
/// to the sampler's rounding), and a separate fixed-step system turns it
/// into a world-space velocity.
#[derive(Clone, Copy, Debug, PartialEq, Eq, Structural)]
pub struct MoveInput(pub Vec3);

/// World-space velocity in world units per second (micro-units).
#[derive(Clone, Copy, Debug, PartialEq, Eq, Structural)]
pub struct Velocity(pub Vec3);

/// Position and orientation of an entity. The position is written only by
/// the fixed-step integrator; the orientation is supplied by the host.
#[derive(Clone, Copy, Debug, PartialEq, Eq, Structural)]
pub struct Transform {
    pub translation: Vec3,
    pub rotation: Quat,
}

impl Transform {
    /// A transform at the given position with the identity rotation.
    pub fn from_translation(translation: Vec3) -> (t: Transform)
        ensures
            t.translation == translation,
            t.rotation == (Quat { x: 0, y: 0, z: 0, w: UNIT }),
    {
        Transform { translation, rotation: Quat::identity() }
    }

    /// The transform's attributes are within the movement pipeline's range.
    pub open spec fn wf(self) -> bool {
        -QUAT_COMP_LIMIT <= self.rotation.x <= QUAT_COMP_LIMIT && -QUAT_COMP_LIMIT
            <= self.rotation.y <= QUAT_COMP_LIMIT && -QUAT_COMP_LIMIT <= self.rotation.z
            <= QUAT_COMP_LIMIT && -QUAT_COMP_LIMIT <= self.rotation.w <= QUAT_COMP_LIMIT
    }
}

impl MoveInput {
    /// The intent's components are within the movement pipeline's range.
    pub open spec fn wf(self) -> bool {
        -INPUT_COMP_LIMIT <= self.0.x <= INPUT_COMP_LIMIT && -INPUT_COMP_LIMIT <= self.0.y
            <= INPUT_COMP_LIMIT && -INPUT_COMP_LIMIT <= self.0.z <= INPUT_COMP_LIMIT
    }
}

impl MoveSpeed {
    /// The speed is non-negative and within the pipeline's range.
    pub open spec fn wf(self) -> bool {
        0 <= self.0 <= SPEED_LIMIT
    }
}

} // verus!
