//! Fixed-point scalars and three-component vectors.
//!
//! World quantities are stored as `i64` values scaled by [`UNIT`]: one world
//! unit is `UNIT` micro-units. All arithmetic on them is exact integer
//! arithmetic, so contracts can state results without rounding talk except
//! where a division truncates, and there the truncation itself is specified.

use vstd::prelude::*;

verus! {

/// One world unit, in micro-units. Every scalar, vector component and
/// quaternion component in the library is an `i64` multiple of 1/`UNIT`.
pub const UNIT: i64 = 1_000_000;

/// `1/sqrt(2)` in micro-units, rounded to the nearest integer.
pub const INV_SQRT_2: i64 = 707_107;

/// `1/sqrt(3)` in micro-units, rounded to the nearest integer.
pub const INV_SQRT_3: i64 = 577_350;

/// A three-component vector in fixed point (components in micro-units).
#[derive(Clone, Copy, Debug, PartialEq, Eq, Structural)]
pub struct Vec3 {
    pub x: i64,
    pub y: i64,
    pub z: i64,
}

impl Vec3 {
    /// Squared Euclidean length, as an exact integer (micro-units squared).
    pub open spec fn len2(self) -> int {
        self.x * self.x + self.y * self.y + self.z * self.z
    }

    pub open spec fn is_zero(self) -> bool {
        self.x == 0 && self.y == 0 && self.z == 0
    }

    pub fn zero() -> (v: Vec3)
        ensures
            v == (Vec3 { x: 0, y: 0, z: 0 }),
    {
        Vec3 { x: 0, y: 0, z: 0 }
    }
}

/// A rotation quaternion in fixed point (components in micro-units). A
/// well-formed orientation is close to unit length; rotation itself is
/// defined for any components, as exact integer arithmetic.
#[derive(Clone, Copy, Debug, PartialEq, Eq, Structural)]
pub struct Quat {
    pub x: i64,
    pub y: i64,
    pub z: i64,
    pub w: i64,
}

impl Quat {
    /// The identity rotation.
    pub fn identity() -> (q: Quat)
        ensures
            q == (Quat { x: 0, y: 0, z: 0, w: UNIT }),
    {
        Quat { x: 0, y: 0, z: 0, w: UNIT }
    }

    /// Squared length of the quaternion, exact (micro-units squared).
    pub open spec fn norm2(self) -> int {
        self.x * self.x + self.y * self.y + self.z * self.z + self.w * self.w
    }
}

/// Dot product of two integer vectors.
pub open spec fn vdot(a: (int, int, int), b: (int, int, int)) -> int {
    a.0 * b.0 + a.1 * b.1 + a.2 * b.2
}

/// Cross product of two integer vectors.
pub open spec fn vcross(a: (int, int, int), b: (int, int, int)) -> (int, int, int) {
    (a.1 * b.2 - a.2 * b.1, a.2 * b.0 - a.0 * b.2, a.0 * b.1 - a.1 * b.0)
}

/// The vector part of a quaternion, as an integer vector.
pub open spec fn quat_vec(q: Quat) -> (int, int, int) {
    (q.x as int, q.y as int, q.z as int)
}

/// A fixed-point vector as an integer vector.
pub open spec fn vec3_int(v: Vec3) -> (int, int, int) {
    (v.x as int, v.y as int, v.z as int)
}

/// Numerator of the quaternion sandwich product `q v q*`, before division by
/// the squared scale: with `u` the vector part and `w` the scalar part,
/// `(w^2 - u.u) v + 2 (u.v) u + 2 w (u x v)`. Dividing it by `UNIT^2` gives
/// the rotated vector back in micro-units when `q` is unit length.
pub open spec fn rot_num(q: Quat, v: Vec3) -> (int, int, int) {
    let u = quat_vec(q);
    let vi = vec3_int(v);
    let a = vdot(u, vi);
    let b = vdot(u, u);
    let s = q.w * q.w - b;
    let c = vcross(u, vi);
    (
        s * vi.0 + 2 * a * u.0 + 2 * q.w * c.0,
        s * vi.1 + 2 * a * u.1 + 2 * q.w * c.1,
        s * vi.2 + 2 * a * u.2 + 2 * q.w * c.2,
    )
}

/// Law: the sandwich product scales squared length by the square of the
/// quaternion's squared norm. For a unit orientation this is exactly
/// "rotation preserves length", so a resolved velocity has the intent's
/// length scaled by the speed, up to the final fixed-point truncation.
pub proof fn lemma_rotation_preserves_len2(q: Quat, v: Vec3)
    ensures
        vdot(rot_num(q, v), rot_num(q, v)) == q.norm2() * q.norm2() * vdot(
            vec3_int(v),
            vec3_int(v),
        ),
{
    let u = quat_vec(q);
    let vi = vec3_int(v);
    lemma_sandwich_len2(u.0, u.1, u.2, q.w as int, vi.0, vi.1, vi.2);
}

proof fn lemma_mul_comm(a: int, b: int)
    by (nonlinear_arith)
    ensures
        a * b == b * a,
{
}

proof fn lemma_mul_swap2(a: int, b: int, c: int, d: int)
    by (nonlinear_arith)
    ensures
        (a * b) * (c * d) == (a * c) * (b * d),
{
}

proof fn lemma_sq_diff(p: int, q: int)
    by (nonlinear_arith)
    ensures
        (p - q) * (p - q) == p * p - 2 * (p * q) + q * q,
{
}

proof fn lemma_sq_sum3(p: int, q: int, r: int)
    by (nonlinear_arith)
    ensures
        (p + q + r) * (p + q + r) == p * p + q * q + r * r + 2 * (p * q) + 2 * (p * r) + 2 * (q
            * r),
{
}

proof fn lemma_mul_sum33(p1: int, p2: int, p3: int, q1: int, q2: int, q3: int)
    by (nonlinear_arith)
    ensures
        (p1 + p2 + p3) * (q1 + q2 + q3) == p1 * q1 + p1 * q2 + p1 * q3 + p2 * q1 + p2 * q2 + p2
            * q3 + p3 * q1 + p3 * q2 + p3 * q3,
{
}

proof fn lemma_twice_sq(a: int)
    by (nonlinear_arith)
    ensures
        (2 * a) * (2 * a) == 4 * (a * a),
{
}

proof fn lemma_twice_twice(a: int, w: int)
    by (nonlinear_arith)
    ensures
        (2 * a) * (2 * w) == 4 * (a * w),
{
}

proof fn lemma_scale2(s: int, a: int)
    by (nonlinear_arith)
    ensures
        s * (2 * a) == 2 * (s * a),
{
}

proof fn lemma_two_two(k: int, t: int)
    by (nonlinear_arith)
    ensures
        2 * ((2 * k) * t) == (4 * k) * t,
{
}

proof fn lemma_two_four(k: int, t: int)
    by (nonlinear_arith)
    ensures
        2 * ((4 * k) * t) == (8 * k) * t,
{
}

proof fn lemma_distrib3(k: int, p: int, q: int, r: int)
    by (nonlinear_arith)
    ensures
        k * p + k * q + k * r == k * (p + q + r),
{
}

proof fn lemma_distrib_sub(k: int, p: int, q: int)
    by (nonlinear_arith)
    ensures
        k * (p - q) == k * p - k * q,
{
}

proof fn lemma_distrib_rt(x: int, y: int, c: int)
    by (nonlinear_arith)
    ensures
        (x + y) * c == x * c + y * c,
{
}

proof fn lemma_sq_sum2(p: int, q: int)
    by (nonlinear_arith)
    ensures
        (p + q) * (p + q) == p * p + 2 * (p * q) + q * q,
{
}

proof fn lemma_assemble_a(a: int, b: int, w: int, s: int)
    by (nonlinear_arith)
    requires
        s == w * w - b,
    ensures
        (4 * (a * a)) * b - (4 * (w * w)) * (a * a) + (4 * (s * a)) * a == 0,
{
}

proof fn lemma_assoc4(w2: int, b: int, c: int)
    by (nonlinear_arith)
    ensures
        (4 * w2) * (b * c) == (4 * (w2 * b)) * c,
{
}

// Expansion of one component of the sandwich numerator squared.
proof fn lemma_component_sq(s: int, a: int, w: int, vx: int, ux: int, cx: int, nx: int)
    requires
        nx == s * vx + 2 * a * ux + 2 * w * cx,
    ensures
        nx * nx == (s * s) * (vx * vx) + (4 * (a * a)) * (ux * ux) + (4 * (w * w)) * (cx * cx) + (4
            * (s * a)) * (vx * ux) + (4 * (s * w)) * (vx * cx) + (8 * (a * w)) * (ux * cx),
{
    lemma_sq_sum3(s * vx, 2 * a * ux, 2 * w * cx);
    lemma_mul_swap2(s, vx, s, vx);
    lemma_mul_swap2(2 * a, ux, 2 * a, ux);
    lemma_twice_sq(a);
    lemma_mul_swap2(2 * w, cx, 2 * w, cx);
    lemma_twice_sq(w);
    lemma_mul_swap2(s, vx, 2 * a, ux);
    lemma_scale2(s, a);
    lemma_two_two(s * a, vx * ux);
    lemma_mul_swap2(s, vx, 2 * w, cx);
    lemma_scale2(s, w);
    lemma_two_two(s * w, vx * cx);
    lemma_mul_swap2(2 * a, ux, 2 * w, cx);
    lemma_twice_twice(a, w);
    lemma_two_four(a * w, ux * cx);
}

proof fn lemma_sandwich_len2(ux: int, uy: int, uz: int, w: int, vx: int, vy: int, vz: int)
    ensures
        ({
            let a = ux * vx + uy * vy + uz * vz;
            let b = ux * ux + uy * uy + uz * uz;
            let c = vx * vx + vy * vy + vz * vz;
            let s = w * w - b;
            let cx = uy * vz - uz * vy;
            let cy = uz * vx - ux * vz;
            let cz = ux * vy - uy * vx;
            let nx = s * vx + 2 * a * ux + 2 * w * cx;
            let ny = s * vy + 2 * a * uy + 2 * w * cy;
            let nz = s * vz + 2 * a * uz + 2 * w * cz;
            nx * nx + ny * ny + nz * nz == (w * w + b) * (w * w + b) * c
        }),
{
    let a = ux * vx + uy * vy + uz * vz;
    let b = ux * ux + uy * uy + uz * uz;
    let c = vx * vx + vy * vy + vz * vz;
    let s = w * w - b;
    let cx = uy * vz - uz * vy;
    let cy = uz * vx - ux * vz;
    let cz = ux * vy - uy * vx;
    let nx = s * vx + 2 * a * ux + 2 * w * cx;
    let ny = s * vy + 2 * a * uy + 2 * w * cy;
    let nz = s * vz + 2 * a * uz + 2 * w * cz;
    // The cross product is orthogonal to both factors.
    assert(ux * cx + uy * cy + uz * cz == 0) by (nonlinear_arith)
        requires
            cx == uy * vz - uz * vy,
            cy == uz * vx - ux * vz,
            cz == ux * vy - uy * vx,
    ;
    assert(vx * cx + vy * cy + vz * cz == 0) by (nonlinear_arith)
        requires
            cx == uy * vz - uz * vy,
            cy == uz * vx - ux * vz,
            cz == ux * vy - uy * vx,
    ;
    // Lagrange identity for the cross product's squared length.
    lemma_lagrange(ux, uy, uz, vx, vy, vz);
    let l2c = cx * cx + cy * cy + cz * cz;
    assert(l2c == b * c - a * a);
    // Expand each squared component and regroup the sums.
    lemma_component_sq(s, a, w, vx, ux, cx, nx);
    lemma_component_sq(s, a, w, vy, uy, cy, ny);
    lemma_component_sq(s, a, w, vz, uz, cz, nz);
    lemma_distrib3(s * s, vx * vx, vy * vy, vz * vz);
    lemma_distrib3(4 * (a * a), ux * ux, uy * uy, uz * uz);
    lemma_distrib3(4 * (w * w), cx * cx, cy * cy, cz * cz);
    lemma_distrib3(4 * (s * a), vx * ux, vy * uy, vz * uz);
    lemma_distrib3(4 * (s * w), vx * cx, vy * cy, vz * cz);
    lemma_distrib3(8 * (a * w), ux * cx, uy * cy, uz * cz);
    lemma_mul_comm(vx, ux);
    lemma_mul_comm(vy, uy);
    lemma_mul_comm(vz, uz);
    assert(vx * ux + vy * uy + vz * uz == a);
    assert(nx * nx + ny * ny + nz * nz == (s * s) * c + (4 * (a * a)) * b + (4 * (w * w)) * l2c + (
    4 * (s * a)) * a);
    // Distribute over the Lagrange value and cancel the dot-product terms.
    lemma_distrib_sub(4 * (w * w), b * c, a * a);
    lemma_assemble_a(a, b, w, s);
    // Fold the remaining terms into the squared norm factor.
    lemma_sq_diff(w * w, b);
    lemma_sq_sum2(w * w, b);
    assert((w * w + b) * (w * w + b) == s * s + 4 * ((w * w) * b));
    lemma_distrib_rt(s * s, 4 * ((w * w) * b), c);
    lemma_assoc4(w * w, b, c);
}

proof fn lemma_lagrange(ux: int, uy: int, uz: int, vx: int, vy: int, vz: int)
    ensures
        (uy * vz - uz * vy) * (uy * vz - uz * vy) + (uz * vx - ux * vz) * (uz * vx - ux * vz) + (ux
            * vy - uy * vx) * (ux * vy - uy * vx) == (ux * ux + uy * uy + uz * uz) * (vx * vx + vy
            * vy + vz * vz) - (ux * vx + uy * vy + uz * vz) * (ux * vx + uy * vy + uz * vz),
{
    // Each cross component squared, in canonical square-product form.
    lemma_sq_diff(uy * vz, uz * vy);
    lemma_mul_swap2(uy, vz, uy, vz);
    lemma_mul_swap2(uz, vy, uz, vy);
    lemma_mul_swap2(uy, vz, uz, vy);
    lemma_mul_comm(vz, vy);
    lemma_sq_diff(uz * vx, ux * vz);
    lemma_mul_swap2(uz, vx, uz, vx);
    lemma_mul_swap2(ux, vz, ux, vz);
    lemma_mul_swap2(uz, vx, ux, vz);
    lemma_mul_comm(vx, vz);
    lemma_mul_comm(uz, ux);
    lemma_sq_diff(ux * vy, uy * vx);
    lemma_mul_swap2(ux, vy, ux, vy);
    lemma_mul_swap2(uy, vx, uy, vx);
    lemma_mul_swap2(ux, vy, uy, vx);
    lemma_mul_comm(vy, vx);
    // |u|^2 |v|^2 expanded into the nine square products.
    lemma_mul_sum33(ux * ux, uy * uy, uz * uz, vx * vx, vy * vy, vz * vz);
    // (u.v)^2 expanded into squares and mixed products.
    lemma_sq_sum3(ux * vx, uy * vy, uz * vz);
    lemma_mul_swap2(ux, vx, ux, vx);
    lemma_mul_swap2(uy, vy, uy, vy);
    lemma_mul_swap2(uz, vz, uz, vz);
    lemma_mul_swap2(ux, vx, uy, vy);
    lemma_mul_swap2(ux, vx, uz, vz);
    lemma_mul_swap2(uy, vy, uz, vz);
}

/// `|x| <= bx` and `|y| <= by` bound the product by `bx * by`.
pub proof fn lemma_mul_bounds(x: int, y: int, bx: int, by: int)
    by (nonlinear_arith)
    requires
        -bx <= x <= bx,
        -by <= y <= by,
        0 <= bx,
        0 <= by,
    ensures
        -(bx * by) <= x * y <= bx * by,
{
}

/// Truncating division never grows magnitude and keeps the sign of the
/// dividend.
pub proof fn lemma_div_trunc_bounds(n: int, d: int)
    requires
        d > 0,
    ensures
        n >= 0 ==> 0 <= div_trunc(n, d) <= n,
        n < 0 ==> n <= div_trunc(n, d) <= 0,
        div_trunc(0, d) == 0,
{
    if n >= 0 {
        vstd::arithmetic::div_mod::lemma_div_pos_is_pos(n, d);
        vstd::arithmetic::div_mod::lemma_div_nonincreasing(n, d);
    } else {
        vstd::arithmetic::div_mod::lemma_div_pos_is_pos(-n, d);
        vstd::arithmetic::div_mod::lemma_div_nonincreasing(-n, d);
    }
    vstd::arithmetic::div_mod::lemma_div_of0(d);
}

/// `a + b` clamped to the `i64` range.
pub open spec fn sat_add(a: int, b: int) -> int {
    if a + b > i64::MAX {
        i64::MAX as int
    } else if a + b < i64::MIN {
        i64::MIN as int
    } else {
        a + b
    }
}

/// Saturating addition on `i64`, exact against [`sat_add`].
pub fn sat_add_i64(a: i64, b: i64) -> (r: i64)
    ensures
        r == sat_add(a as int, b as int),
{
    let s: i128 = a as i128 + b as i128;
    if s > i64::MAX as i128 {
        i64::MAX
    } else if s < i64::MIN as i128 {
        i64::MIN
    } else {
        s as i64
    }
}

/// Integer division that truncates toward zero, defined for positive
/// divisors. This is the rounding used when a fixed-point product is brought
/// back to scale.
pub open spec fn div_trunc(n: int, d: int) -> int
    recommends
        d > 0,
{
    if n >= 0 {
        n / d
    } else {
        -((-n) / d)
    }
}

/// Truncating division on `i128`, exact against [`div_trunc`].
pub fn div_trunc_i128(n: i128, d: i128) -> (r: i128)
    requires
        d > 0,
        n > i128::MIN,
    ensures
        r == div_trunc(n as int, d as int),
{
    if n >= 0 {
        n / d
    } else {
        -((-n) / d)
    }
}

} // verus!
