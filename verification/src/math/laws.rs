//! The algebraic laws of the vector operations, stated over the same spec
//! functions that the operations' contracts use, so each law transfers
//! directly to every backend sequence that carries those contracts.

use vstd::arithmetic::mul::lemma_mul_is_commutative;
use vstd::prelude::*;

use crate::math::reg::{clamp_reg, max_reg, min_reg, Reg};
use crate::math::vec3::{cross_x, cross_y, cross_z, dot3, mk3, Vec3};
use crate::math::vec4::{dot4, Vec4};

verus! {

/// The 3-lane dot product is symmetric: `dot(a, b) == dot(b, a)`.
pub proof fn lemma_dot3_symmetric(a: Vec3, b: Vec3)
    ensures
        dot3(a.reg, b.reg) == dot3(b.reg, a.reg),
{
    lemma_mul_is_commutative(a.reg.x as int, b.reg.x as int);
    lemma_mul_is_commutative(a.reg.y as int, b.reg.y as int);
    lemma_mul_is_commutative(a.reg.z as int, b.reg.z as int);
}

/// The 4-lane dot product is symmetric: `dot(a, b) == dot(b, a)`.
pub proof fn lemma_dot4_symmetric(a: Vec4, b: Vec4)
    ensures
        dot4(a.reg, b.reg) == dot4(b.reg, a.reg),
{
    lemma_mul_is_commutative(a.reg.x as int, b.reg.x as int);
    lemma_mul_is_commutative(a.reg.y as int, b.reg.y as int);
    lemma_mul_is_commutative(a.reg.z as int, b.reg.z as int);
    lemma_mul_is_commutative(a.reg.w as int, b.reg.w as int);
}

/// The cross product is antisymmetric: `cross(a, b) == -cross(b, a)`,
/// component by component.
pub proof fn lemma_cross_antisymmetric(a: Vec3, b: Vec3)
    ensures
        cross_x(a.reg, b.reg) == -cross_x(b.reg, a.reg),
        cross_y(a.reg, b.reg) == -cross_y(b.reg, a.reg),
        cross_z(a.reg, b.reg) == -cross_z(b.reg, a.reg),
{
    lemma_mul_is_commutative(a.reg.x as int, b.reg.y as int);
    lemma_mul_is_commutative(a.reg.y as int, b.reg.x as int);
    lemma_mul_is_commutative(a.reg.y as int, b.reg.z as int);
    lemma_mul_is_commutative(a.reg.z as int, b.reg.y as int);
    lemma_mul_is_commutative(a.reg.z as int, b.reg.x as int);
    lemma_mul_is_commutative(a.reg.x as int, b.reg.z as int);
}

/// The cross product is orthogonal to both operands: its dot product with
/// either one is exactly zero (exact lanes leave no tolerance to allow).
pub proof fn lemma_cross_orthogonal(a: Vec3, b: Vec3)
    ensures
        cross_x(a.reg, b.reg) * a.reg.x + cross_y(a.reg, b.reg) * a.reg.y + cross_z(a.reg, b.reg)
            * a.reg.z == 0,
        cross_x(a.reg, b.reg) * b.reg.x + cross_y(a.reg, b.reg) * b.reg.y + cross_z(a.reg, b.reg)
            * b.reg.z == 0,
{
    nl_orthogonal(
        a.reg.x as int,
        a.reg.y as int,
        a.reg.z as int,
        b.reg.x as int,
        b.reg.y as int,
        b.reg.z as int,
    );
    nl_orthogonal(
        b.reg.x as int,
        b.reg.y as int,
        b.reg.z as int,
        a.reg.x as int,
        a.reg.y as int,
        a.reg.z as int,
    );
    lemma_cross_antisymmetric(a, b);
}

/// The cross product of `(ax, ay, az)` and `(bx, by, bz)` dotted with either
/// operand vanishes, written out over plain integers.
proof fn nl_orthogonal(ax: int, ay: int, az: int, bx: int, by: int, bz: int)
    by (nonlinear_arith)
    ensures
        (ay * bz - az * by) * ax + (az * bx - ax * bz) * ay + (ax * by - ay * bx) * az == 0,
        (ay * bz - az * by) * bx + (az * bx - ax * bz) * by + (ax * by - ay * bx) * bz == 0,
{
}

/// Lane-wise minimum is symmetric: `min(a, b) == min(b, a)` in every lane of
/// either vector type.
pub proof fn lemma_min_symmetric(a: Reg, b: Reg)
    ensures
        min_reg(a, b) == min_reg(b, a),
{
}

/// Lane-wise maximum is symmetric: `max(a, b) == max(b, a)` in every lane of
/// either vector type.
pub proof fn lemma_max_symmetric(a: Reg, b: Reg)
    ensures
        max_reg(a, b) == max_reg(b, a),
{
}

/// Clamping is idempotent: `clamp(clamp(v, lo, hi), lo, hi)
/// == clamp(v, lo, hi)`, with no assumption that `lo <= hi`.
pub proof fn lemma_clamp_idempotent(v: Reg, lo: Reg, hi: Reg)
    ensures
        clamp_reg(clamp_reg(v, lo, hi), lo, hi) == clamp_reg(v, lo, hi),
{
}

/// Rebuilding a 3-component vector from its extracted components — the array
/// or tuple that `to_array`/`to_tuple` return, fed back through
/// `from_array`/`from_tuple` — reproduces every logical lane. (The padding
/// lane is re-derived, so only the observable lanes can round-trip.)
pub proof fn lemma_vec3_round_trip(v: Vec3)
    ensures
        mk3(v.reg.x, v.reg.y, v.reg.z).x == v.reg.x,
        mk3(v.reg.x, v.reg.y, v.reg.z).y == v.reg.y,
        mk3(v.reg.x, v.reg.y, v.reg.z).z == v.reg.z,
{
}

/// Rebuilding a 4-component vector from its extracted components reproduces
/// the whole register: all four lanes are observable, so the round trip is
/// exact equality.
pub proof fn lemma_vec4_round_trip(v: Vec4)
    ensures
        (Reg { x: v.reg.x, y: v.reg.y, z: v.reg.z, w: v.reg.w }) == v.reg,
{
}

} // verus!
