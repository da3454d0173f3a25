//! The fixed-phase movement pipeline on single values: resolving a local
//! intent into a world-space velocity, and integrating a velocity into a
//! position over one fixed step.

use vstd::prelude::*;

use crate::component::{MoveInput, MoveSpeed, INPUT_COMP_LIMIT, QUAT_COMP_LIMIT, SPEED_LIMIT};
use crate::math::{
    div_trunc, div_trunc_i128, lemma_div_trunc_bounds, lemma_mul_bounds, rot_num, sat_add,
    sat_add_i64, Quat, Vec3,
};

verus! {

/// The cube of the unit scale: a sandwich numerator carries the scale three
/// times (twice from the quaternion, once from the vector), so one division
/// by this brings a numerator scaled by a speed back to micro-units.
pub const SCALE_CUBED: i128 = 1_000_000_000_000_000_000;

/// Largest magnitude of a resolved velocity component, given the caps on
/// intent, orientation and speed.
pub const VEL_COMP_LIMIT: i64 = 900_000_000_000_000;

/// The velocity that a (intent, speed, orientation) triple resolves to:
/// each component is the exact sandwich-product numerator, scaled by the
/// speed and brought back to micro-units by one truncating division.
pub open spec fn resolved_velocity(input: MoveInput, speed: MoveSpeed, rotation: Quat) -> Vec3 {
    let n = rot_num(rotation, input.0);
    Vec3 {
        x: div_trunc(n.0 * speed.0, SCALE_CUBED as int) as i64,
        y: div_trunc(n.1 * speed.0, SCALE_CUBED as int) as i64,
        z: div_trunc(n.2 * speed.0, SCALE_CUBED as int) as i64,
    }
}

/// Rotate the local intent into world space by the entity's orientation and
/// scale it by the entity's speed. A pure function of its three arguments:
/// the result is fully determined by [`resolved_velocity`].
pub fn resolve_velocity(input: &MoveInput, speed: &MoveSpeed, rotation: &Quat) -> (vel: Vec3)
    requires
        input.wf(),
        speed.wf(),
        -QUAT_COMP_LIMIT <= rotation.x <= QUAT_COMP_LIMIT,
        -QUAT_COMP_LIMIT <= rotation.y <= QUAT_COMP_LIMIT,
        -QUAT_COMP_LIMIT <= rotation.z <= QUAT_COMP_LIMIT,
        -QUAT_COMP_LIMIT <= rotation.w <= QUAT_COMP_LIMIT,
    ensures
        vel == resolved_velocity(*input, *speed, *rotation),
        -VEL_COMP_LIMIT <= vel.x <= VEL_COMP_LIMIT,
        -VEL_COMP_LIMIT <= vel.y <= VEL_COMP_LIMIT,
        -VEL_COMP_LIMIT <= vel.z <= VEL_COMP_LIMIT,
{
    let ux = rotation.x as i128;
    let uy = rotation.y as i128;
    let uz = rotation.z as i128;
    let w = rotation.w as i128;
    let vx = input.0.x as i128;
    let vy = input.0.y as i128;
    let vz = input.0.z as i128;
    proof {
        lemma_mul_bounds(ux as int, vx as int, 2_000_000, 16_000_000);
        lemma_mul_bounds(uy as int, vy as int, 2_000_000, 16_000_000);
        lemma_mul_bounds(uz as int, vz as int, 2_000_000, 16_000_000);
        lemma_mul_bounds(ux as int, ux as int, 2_000_000, 2_000_000);
        lemma_mul_bounds(uy as int, uy as int, 2_000_000, 2_000_000);
        lemma_mul_bounds(uz as int, uz as int, 2_000_000, 2_000_000);
        lemma_mul_bounds(w as int, w as int, 2_000_000, 2_000_000);
        lemma_mul_bounds(uy as int, vz as int, 2_000_000, 16_000_000);
        lemma_mul_bounds(uz as int, vy as int, 2_000_000, 16_000_000);
        lemma_mul_bounds(uz as int, vx as int, 2_000_000, 16_000_000);
        lemma_mul_bounds(ux as int, vz as int, 2_000_000, 16_000_000);
        lemma_mul_bounds(ux as int, vy as int, 2_000_000, 16_000_000);
        lemma_mul_bounds(uy as int, vx as int, 2_000_000, 16_000_000);
    }
    // Dot products and the scalar weight of the sandwich product.
    let a = ux * vx + uy * vy + uz * vz;
    let b = ux * ux + uy * uy + uz * uz;
    let s = w * w - b;
    // Cross product of the quaternion vector part with the intent.
    let cx = uy * vz - uz * vy;
    let cy = uz * vx - ux * vz;
    let cz = ux * vy - uy * vx;
    proof {
        lemma_mul_bounds(s as int, vx as int, 16_000_000_000_000, 16_000_000);
        lemma_mul_bounds(s as int, vy as int, 16_000_000_000_000, 16_000_000);
        lemma_mul_bounds(s as int, vz as int, 16_000_000_000_000, 16_000_000);
        lemma_mul_bounds(2 * a as int, ux as int, 192_000_000_000_000, 2_000_000);
        lemma_mul_bounds(2 * a as int, uy as int, 192_000_000_000_000, 2_000_000);
        lemma_mul_bounds(2 * a as int, uz as int, 192_000_000_000_000, 2_000_000);
        lemma_mul_bounds(2 * w as int, cx as int, 4_000_000, 64_000_000_000_000);
        lemma_mul_bounds(2 * w as int, cy as int, 4_000_000, 64_000_000_000_000);
        lemma_mul_bounds(2 * w as int, cz as int, 4_000_000, 64_000_000_000_000);
    }
    // Components of the sandwich numerator.
    let nx = s * vx + 2 * a * ux + 2 * w * cx;
    let ny = s * vy + 2 * a * uy + 2 * w * cy;
    let nz = s * vz + 2 * a * uz + 2 * w * cz;
    let sp = speed.0 as i128;
    proof {
        lemma_mul_bounds(nx as int, sp as int, 900_000_000_000_000_000_000, 1_000_000_000_000);
        lemma_mul_bounds(ny as int, sp as int, 900_000_000_000_000_000_000, 1_000_000_000_000);
        lemma_mul_bounds(nz as int, sp as int, 900_000_000_000_000_000_000, 1_000_000_000_000);
        lemma_div_in_vel_range(nx * sp);
        lemma_div_in_vel_range(ny * sp);
        lemma_div_in_vel_range(nz * sp);
    }
    let rx = div_trunc_i128(nx * sp, SCALE_CUBED);
    let ry = div_trunc_i128(ny * sp, SCALE_CUBED);
    let rz = div_trunc_i128(nz * sp, SCALE_CUBED);
    Vec3 { x: rx as i64, y: ry as i64, z: rz as i64 }
}

/// A numerator-times-speed product stays within the velocity cap once
/// divided by the cubed scale.
proof fn lemma_div_in_vel_range(n: int)
    requires
        -900_000_000_000_000_000_000_000_000_000_000 <= n
            <= 900_000_000_000_000_000_000_000_000_000_000,
    ensures
        -(VEL_COMP_LIMIT as int) <= div_trunc(n, SCALE_CUBED as int) <= VEL_COMP_LIMIT as int,
{
    let d = SCALE_CUBED as int;
    let bound = VEL_COMP_LIMIT as int;
    lemma_div_trunc_bounds(n, d);
    if n >= 0 {
        vstd::arithmetic::div_mod::lemma_div_is_ordered(
            n,
            900_000_000_000_000_000_000_000_000_000_000,
            d,
        );
        assert(900_000_000_000_000_000_000_000_000_000_000int / 1_000_000_000_000_000_000int
            == 900_000_000_000_000);
    } else {
        vstd::arithmetic::div_mod::lemma_div_is_ordered(
            -n,
            900_000_000_000_000_000_000_000_000_000_000,
            d,
        );
        assert(900_000_000_000_000_000_000_000_000_000_000int / 1_000_000_000_000_000_000int
            == 900_000_000_000_000);
    }
}

/// Law: the velocity resolver is a pure function — identical (intent,
/// speed, orientation) triples always resolve to identical velocities; the
/// result depends on nothing else.
pub proof fn lemma_resolver_is_pure(
    i1: MoveInput,
    s1: MoveSpeed,
    r1: Quat,
    i2: MoveInput,
    s2: MoveSpeed,
    r2: Quat,
)
    requires
        i1 == i2,
        s1 == s2,
        r1 == r2,
    ensures
        resolved_velocity(i1, s1, r1) == resolved_velocity(i2, s2, r2),
{
}

/// Where one fixed step of duration `num/den` seconds carries a position:
/// each component moves by the velocity times the step, truncated toward
/// zero, and clamps at the representable range.
pub open spec fn stepped_position(pos: Vec3, vel: Vec3, num: int, den: int) -> Vec3 {
    Vec3 {
        x: sat_add(pos.x as int, div_trunc(vel.x * num, den)) as i64,
        y: sat_add(pos.y as int, div_trunc(vel.y * num, den)) as i64,
        z: sat_add(pos.z as int, div_trunc(vel.z * num, den)) as i64,
    }
}

/// Advance a position by `vel * (num/den)` seconds. With a zero step
/// (`num == 0`) the position is returned unchanged — integration before the
/// first latched step is a no-op, not an error.
pub fn step_position(pos: &Vec3, vel: &Vec3, num: u32, den: u32) -> (p: Vec3)
    requires
        den >= 1,
        num <= 1,
    ensures
        p == stepped_position(*pos, *vel, num as int, den as int),
        num == 0 ==> p == *pos,
{
    proof {
        lemma_step_component(pos.x as int, vel.x as int, num as int, den as int);
        lemma_step_component(pos.y as int, vel.y as int, num as int, den as int);
        lemma_step_component(pos.z as int, vel.z as int, num as int, den as int);
    }
    let dx = div_trunc_i128((vel.x as i128) * (num as i128), den as i128);
    let dy = div_trunc_i128((vel.y as i128) * (num as i128), den as i128);
    let dz = div_trunc_i128((vel.z as i128) * (num as i128), den as i128);
    Vec3 {
        x: sat_add_i64(pos.x, dx as i64),
        y: sat_add_i64(pos.y, dy as i64),
        z: sat_add_i64(pos.z, dz as i64),
    }
}

/// One component of a step: the displacement fits in an `i64`, and a zero
/// step displaces by zero.
proof fn lemma_step_component(pos: int, vel: int, num: int, den: int)
    requires
        den >= 1,
        0 <= num <= 1,
        i64::MIN <= vel <= i64::MAX,
    ensures
        i64::MIN <= vel * num <= i64::MAX,
        i64::MIN <= div_trunc(vel * num, den) <= i64::MAX,
        num == 0 ==> div_trunc(vel * num, den) == 0,
        num == 0 ==> sat_add(pos, div_trunc(vel * num, den)) == pos || !(i64::MIN <= pos
            <= i64::MAX),
    decreases 0int,
{
    if num == 0 {
        assert(vel * num == 0) by (nonlinear_arith)
            requires
                num == 0,
        ;
        lemma_div_trunc_bounds(0, den);
    } else {
        assert(vel * num == vel) by (nonlinear_arith)
            requires
                num == 1,
        ;
        lemma_div_trunc_bounds(vel, den);
    }
}

} // verus!
