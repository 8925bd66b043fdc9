//! A 3-component vector stored in a 4-lane register.
//!
//! Lane 3 is a padding lane: the constructors historically duplicate z into
//! it, but no exposed operation may let it influence a result. Each contract
//! below speaks only of x, y and z, so verifying an operation at the same
//! time proves its result independent of the padding lane — except where a
//! backend sequence genuinely folds lane 3 in, in which case the contract
//! says exactly what it assumes of it.

use vstd::prelude::*;

use crate::math::reg::{
    clamp_reg, lemma_mul_magnitude, max_lane, max_reg, min_lane, min_reg, Reg, LANE_LIMIT,
    SUM_LIMIT,
};
use crate::math::vec4::Vec4;

verus! {

/// A 3-component vector (x, y, z) plus one padding lane (w).
#[derive(Clone, Copy, Debug)]
pub struct Vec3 {
    pub reg: Reg,
}

/// The register that the 3-component constructors build: the three logical
/// lanes, with a duplicate of z in the padding lane.
pub open spec fn mk3(x: i64, y: i64, z: i64) -> Reg {
    Reg { x, y, z, w: z }
}

/// The dot product over the three logical lanes; the padding lanes do not
/// appear.
pub open spec fn dot3(a: Reg, b: Reg) -> int {
    a.x * b.x + a.y * b.y + a.z * b.z
}

/// The x component of the 3-dimensional cross product.
pub open spec fn cross_x(a: Reg, b: Reg) -> int {
    a.y * b.z - a.z * b.y
}

/// The y component of the 3-dimensional cross product.
pub open spec fn cross_y(a: Reg, b: Reg) -> int {
    a.z * b.x - a.x * b.z
}

/// The z component of the 3-dimensional cross product.
pub open spec fn cross_z(a: Reg, b: Reg) -> int {
    a.x * b.y - a.y * b.x
}

/// The smallest of the three logical lanes; lane 3 does not appear.
pub open spec fn min3(r: Reg) -> i64 {
    min_lane(min_lane(r.x, r.y), r.z)
}

/// The largest of the three logical lanes; lane 3 does not appear.
pub open spec fn max3(r: Reg) -> i64 {
    max_lane(max_lane(r.x, r.y), r.z)
}

/// The three logical lanes bounded by `bound` in magnitude; the padding lane
/// is unconstrained.
pub open spec fn within3(r: Reg, bound: int) -> bool {
    &&& -bound <= r.x <= bound
    &&& -bound <= r.y <= bound
    &&& -bound <= r.z <= bound
}

/// Creates a 3-dimensional vector.
pub fn vec3(x: i64, y: i64, z: i64) -> (r: Vec3)
    ensures
        r.reg == mk3(x, y, z),
{
    Vec3::new(x, y, z)
}

impl Vec3 {
    /// Creates a new vector. The padding lane receives a duplicate of z;
    /// nothing below may rely on that.
    pub fn new(x: i64, y: i64, z: i64) -> (r: Vec3)
        ensures
            r.reg == mk3(x, y, z),
    {
        Vec3 { reg: Reg::new(x, y, z, z) }
    }

    /// Creates a vector with all elements (padding lane included) set to `v`.
    pub fn splat(v: i64) -> (r: Vec3)
        ensures
            r.reg == (Reg { x: v, y: v, z: v, w: v }),
    {
        Vec3 { reg: Reg::splat(v) }
    }

    /// All zeroes.
    pub fn zero() -> (r: Vec3)
        ensures
            r.reg == (Reg { x: 0i64, y: 0i64, z: 0i64, w: 0i64 }),
    {
        Vec3::splat(0)
    }

    /// All ones.
    pub fn one() -> (r: Vec3)
        ensures
            r.reg == (Reg { x: 1i64, y: 1i64, z: 1i64, w: 1i64 }),
    {
        Vec3::splat(1)
    }

    /// All negative ones.
    pub fn neg_one() -> (r: Vec3)
        ensures
            r.reg == (Reg { x: -1i64, y: -1i64, z: -1i64, w: -1i64 }),
    {
        Vec3::splat(-1)
    }

    /// The unit vector along the negative x axis.
    pub fn neg_axis_x() -> (r: Vec3)
        ensures
            r.reg == (Reg { x: -1i64, y: 0i64, z: 0i64, w: 0i64 }),
    {
        Vec3::new(-1, 0, 0)
    }

    /// The unit vector along the negative y axis.
    pub fn neg_axis_y() -> (r: Vec3)
        ensures
            r.reg == (Reg { x: 0i64, y: -1i64, z: 0i64, w: 0i64 }),
    {
        Vec3::new(0, -1, 0)
    }

    /// The unit vector along the negative z axis.
    pub fn neg_axis_z() -> (r: Vec3)
        ensures
            r.reg == (Reg { x: 0i64, y: 0i64, z: -1i64, w: -1i64 }),
    {
        Vec3::new(0, 0, -1)
    }

    /// The unit vector along the positive x axis.
    pub fn axis_x() -> (r: Vec3)
        ensures
            r.reg == (Reg { x: 1i64, y: 0i64, z: 0i64, w: 0i64 }),
    {
        Vec3::new(1, 0, 0)
    }

    /// The unit vector along the positive y axis.
    pub fn axis_y() -> (r: Vec3)
        ensures
            r.reg == (Reg { x: 0i64, y: 1i64, z: 0i64, w: 0i64 }),
    {
        Vec3::new(0, 1, 0)
    }

    /// The unit vector along the positive z axis.
    pub fn axis_z() -> (r: Vec3)
        ensures
            r.reg == (Reg { x: 0i64, y: 0i64, z: 1i64, w: 1i64 }),
    {
        Vec3::new(0, 0, 1)
    }

    pub fn from_array(a: [i64; 3]) -> (r: Vec3)
        ensures
            r.reg == mk3(a[0], a[1], a[2]),
    {
        Vec3::new(a[0], a[1], a[2])
    }

    /// The three logical lanes; the padding lane is not read.
    pub fn to_array(&self) -> (r: [i64; 3])
        ensures
            r == [self.reg.x, self.reg.y, self.reg.z],
    {
        [self.reg.x, self.reg.y, self.reg.z]
    }

    pub fn from_tuple(t: (i64, i64, i64)) -> (r: Vec3)
        ensures
            r.reg == mk3(t.0, t.1, t.2),
    {
        Vec3::new(t.0, t.1, t.2)
    }

    pub fn to_tuple(&self) -> (r: (i64, i64, i64))
        ensures
            r == (self.reg.x, self.reg.y, self.reg.z),
    {
        (self.reg.x, self.reg.y, self.reg.z)
    }

    /// The first three elements of a slice, as a vector. A shorter slice is
    /// out of bounds.
    pub fn from_slice(a: &[i64]) -> (r: Vec3)
        requires
            a@.len() >= 3,
        ensures
            r.reg == mk3(a@[0], a@[1], a@[2]),
    {
        Vec3::new(a[0], a[1], a[2])
    }

    /// Writes the three components to the head of `slice`. A destination
    /// shorter than three is out of bounds.
    pub fn write_to_slice(self, slice: &mut Vec<i64>)
        requires
            old(slice)@.len() >= 3,
        ensures
            final(slice)@.len() == old(slice)@.len(),
            final(slice)@[0] == self.reg.x,
            final(slice)@[1] == self.reg.y,
            final(slice)@[2] == self.reg.z,
            forall|i: int| 3 <= i < old(slice)@.len() ==> final(slice)@[i] == old(slice)@[i],
    {
        slice.set(0, self.reg.x);
        slice.set(1, self.reg.y);
        slice.set(2, self.reg.z);
    }

    /// Reuses a `Vec4`'s register unchanged, so the padding lane is whatever
    /// that vector's w was.
    pub fn from_vec4(v: Vec4) -> (r: Vec3)
        ensures
            r.reg == v.reg,
    {
        Vec3 { reg: v.reg }
    }

    /// Extends to a `Vec4`, replacing the padding lane with `w`.
    pub fn extend(self, w: i64) -> (r: Vec4)
        ensures
            r.reg == (Reg { x: self.reg.x, y: self.reg.y, z: self.reg.z, w }),
    {
        Vec4::new(self.reg.x, self.reg.y, self.reg.z, w)
    }

    /// Lane-wise minimum over the whole register, padding lanes included —
    /// the padding result is the minimum of the padding operands and carries
    /// no meaning.
    pub fn min(self, rhs: Vec3) -> (r: Vec3)
        ensures
            r.reg == min_reg(self.reg, rhs.reg),
    {
        Vec3 { reg: self.reg.min_lanes(rhs.reg) }
    }

    /// Lane-wise maximum over the whole register.
    pub fn max(self, rhs: Vec3) -> (r: Vec3)
        ensures
            r.reg == max_reg(self.reg, rhs.reg),
    {
        Vec3 { reg: self.reg.max_lanes(rhs.reg) }
    }

    /// `min(max(self, lo), hi)`, lane by lane. Bounds are not validated.
    pub fn clamp(self, lo: Vec3, hi: Vec3) -> (r: Vec3)
        ensures
            r.reg == clamp_reg(self.reg, lo.reg, hi.reg),
    {
        self.max(lo).min(hi)
    }

    /// Lane-wise absolute value, sequenced as the subtract-and-maximum
    /// backends do: `max(0 - v, v)` over the whole register.
    pub fn abs(self) -> (r: Vec3)
        requires
            self.reg.within(SUM_LIMIT as int),
        ensures
            r.reg.x == abs_lane(self.reg.x),
            r.reg.y == abs_lane(self.reg.y),
            r.reg.z == abs_lane(self.reg.z),
            r.reg.w == abs_lane(self.reg.w),
    {
        let neg = Reg::splat(0).sub_lanes(self.reg);
        Vec3 { reg: neg.max_lanes(self.reg) }
    }

    /// Dot product over the three logical lanes. The padding lanes are
    /// masked to the neutral value zero before the lane products, so they
    /// never reach the sum and need not even be bounded.
    pub fn dot(self, rhs: Vec3) -> (r: i64)
        requires
            within3(self.reg, LANE_LIMIT as int),
            within3(rhs.reg, LANE_LIMIT as int),
        ensures
            r == dot3(self.reg, rhs.reg),
    {
        let a = self.reg.mask_xyz();
        let b = rhs.reg.mask_xyz();
        let mul = a.mul_lanes(b);
        let h = mul.pairwise_add(mul);
        let h2 = h.pairwise_add(h);
        h2.x
    }

    /// The same dot product sequenced as the backends that multiply first
    /// and zero the padding product afterwards. The padding lanes take part
    /// in the multiply, so this form needs them bounded as well, though
    /// their value still cannot reach the result.
    pub fn dot_masked_after_multiply(self, rhs: Vec3) -> (r: i64)
        requires
            self.reg.within(LANE_LIMIT as int),
            rhs.reg.within(LANE_LIMIT as int),
        ensures
            r == dot3(self.reg, rhs.reg),
    {
        let mul = self.reg.mul_lanes(rhs.reg);
        let masked = mul.mask_xyz();
        let h = masked.pairwise_add(masked);
        let h2 = h.pairwise_add(h);
        h2.x
    }

    /// The dot product broadcast into every lane of a `Vec3`.
    pub fn dot_into_vec3(self, rhs: Vec3) -> (r: Vec3)
        requires
            within3(self.reg, LANE_LIMIT as int),
            within3(rhs.reg, LANE_LIMIT as int),
        ensures
            r.reg.x == dot3(self.reg, rhs.reg),
            r.reg.y == dot3(self.reg, rhs.reg),
            r.reg.z == dot3(self.reg, rhs.reg),
            r.reg.w == dot3(self.reg, rhs.reg),
    {
        let d = self.dot(rhs);
        Vec3 { reg: Reg::splat(d) }
    }

    /// The dot product broadcast into every lane of a `Vec4`.
    pub fn dot_into_vec4(self, rhs: Vec3) -> (r: Vec4)
        requires
            within3(self.reg, LANE_LIMIT as int),
            within3(rhs.reg, LANE_LIMIT as int),
        ensures
            r.reg.x == dot3(self.reg, rhs.reg),
            r.reg.y == dot3(self.reg, rhs.reg),
            r.reg.z == dot3(self.reg, rhs.reg),
            r.reg.w == dot3(self.reg, rhs.reg),
    {
        let d = self.dot(rhs);
        Vec4 { reg: Reg::splat(d) }
    }

    /// The 3-dimensional cross product, sequenced as the backends that
    /// rotate both operands into (y, z, x) order do: multiply each operand
    /// by the rotation of the other, subtract, and rotate the difference
    /// back. The rotation is spelled as the packed shuffle immediate
    /// `0b00_00_10_01`, decoded to its lane quadruple the way the shuffle
    /// instruction reads it. The resulting padding lane is a duplicate of z,
    /// as the rotation happens to leave it.
    ///
    /// The rotation reads only lanes 0..3 of both operands, but the lane
    /// products of the unrotated operands touch lane 3, so the padding lanes
    /// must be bounded; their value cannot reach x, y or z.
    pub fn cross(self, rhs: Vec3) -> (r: Vec3)
        requires
            self.reg.within(LANE_LIMIT as int),
            rhs.reg.within(LANE_LIMIT as int),
        ensures
            r.reg.x == cross_x(self.reg, rhs.reg),
            r.reg.y == cross_y(self.reg, rhs.reg),
            r.reg.z == cross_z(self.reg, rhs.reg),
            r.reg.w == cross_z(self.reg, rhs.reg),
    {
        proof {
            crate::math::bits::lemma_cross_shuffle_immediate();
        }
        let rot = crate::math::bits::decode_shuffle_imm(0b00_00_10_01);
        let i0 = rot[0] as usize;
        let i1 = rot[1] as usize;
        let i2 = rot[2] as usize;
        let i3 = rot[3] as usize;
        let rot_rhs = rhs.reg.shuffle(i0, i1, i2, i3);
        let rot_self = self.reg.shuffle(i0, i1, i2, i3);
        let sub = rot_rhs.mul_lanes(self.reg).sub_lanes(rot_self.mul_lanes(rhs.reg));
        Vec3 { reg: sub.shuffle(i0, i1, i2, i3) }
    }

    /// The same cross product sequenced as the backends that rotate into
    /// (z, x, y) order do. Like `cross`, its padding lane comes out as a
    /// duplicate of z; x, y and z agree exactly with `cross`.
    pub fn cross_rotate_zxy(self, rhs: Vec3) -> (r: Vec3)
        requires
            self.reg.within(LANE_LIMIT as int),
            rhs.reg.within(LANE_LIMIT as int),
        ensures
            r.reg.x == cross_x(self.reg, rhs.reg),
            r.reg.y == cross_y(self.reg, rhs.reg),
            r.reg.z == cross_z(self.reg, rhs.reg),
            r.reg.w == cross_z(self.reg, rhs.reg),
    {
        let rot_self = self.reg.shuffle(2, 0, 1, 1);
        let rot_rhs = rhs.reg.shuffle(2, 0, 1, 1);
        let sub = rot_self.mul_lanes(rhs.reg).sub_lanes(rot_rhs.mul_lanes(self.reg));
        Vec3 { reg: sub.shuffle(2, 0, 1, 1) }
    }

    /// The same cross product sequenced as the backend that works in
    /// register halves: combine reversed and duplicated half-registers,
    /// multiply-subtract, then repair lane y with one sign-flip XOR and
    /// clear the padding lane with the xyz select mask. This sequence reads
    /// no padding lane at all and leaves the padding lane zero — the masked
    /// neutral value.
    pub fn cross_via_sign_flip(self, rhs: Vec3) -> (r: Vec3)
        requires
            within3(self.reg, LANE_LIMIT as int),
            within3(rhs.reg, LANE_LIMIT as int),
        ensures
            r.reg.x == cross_x(self.reg, rhs.reg),
            r.reg.y == cross_y(self.reg, rhs.reg),
            r.reg.z == cross_z(self.reg, rhs.reg),
            r.reg.w == 0,
    {
        let yx_xy_self = Reg::new(self.reg.y, self.reg.x, self.reg.x, self.reg.y);
        let zz_yx_rhs = Reg::new(rhs.reg.z, rhs.reg.z, rhs.reg.y, rhs.reg.x);
        let zz_yx_self = Reg::new(self.reg.z, self.reg.z, self.reg.y, self.reg.x);
        let yx_xy_rhs = Reg::new(rhs.reg.y, rhs.reg.x, rhs.reg.x, rhs.reg.y);
        let res = yx_xy_self.mul_lanes(zz_yx_rhs).sub_lanes(zz_yx_self.mul_lanes(yx_xy_rhs));
        Vec3 { reg: res.flip_y().mask_xyz() }
    }

    /// The same cross product as the structural scalar fallback computes it,
    /// straight from the component formula. Only the three logical lanes are
    /// read, so only they need bounding.
    pub fn cross_components(self, rhs: Vec3) -> (r: Vec3)
        requires
            within3(self.reg, LANE_LIMIT as int),
            within3(rhs.reg, LANE_LIMIT as int),
        ensures
            r.reg.x == cross_x(self.reg, rhs.reg),
            r.reg.y == cross_y(self.reg, rhs.reg),
            r.reg.z == cross_z(self.reg, rhs.reg),
            r.reg.w == cross_z(self.reg, rhs.reg),
    {
        proof {
            lemma_mul_magnitude(self.reg.y as int, rhs.reg.z as int, LANE_LIMIT as int);
            lemma_mul_magnitude(self.reg.z as int, rhs.reg.y as int, LANE_LIMIT as int);
            lemma_mul_magnitude(self.reg.z as int, rhs.reg.x as int, LANE_LIMIT as int);
            lemma_mul_magnitude(self.reg.x as int, rhs.reg.z as int, LANE_LIMIT as int);
            lemma_mul_magnitude(self.reg.x as int, rhs.reg.y as int, LANE_LIMIT as int);
            lemma_mul_magnitude(self.reg.y as int, rhs.reg.x as int, LANE_LIMIT as int);
        }
        Vec3::new(
            self.reg.y * rhs.reg.z - self.reg.z * rhs.reg.y,
            self.reg.z * rhs.reg.x - self.reg.x * rhs.reg.z,
            self.reg.x * rhs.reg.y - self.reg.y * rhs.reg.x,
        )
    }

    /// Horizontal minimum of the three logical lanes, sequenced as the
    /// shuffle-tree backends do: fold (z, z) onto (x, y), then lane 1 onto
    /// lane 0. The tree never reads lane 3, so the padding lane is free to
    /// hold anything.
    pub fn min_element(self) -> (r: i64)
        ensures
            r == min3(self.reg),
    {
        let m1 = self.reg.min_lanes(self.reg.shuffle(2, 2, 1, 1));
        let m2 = m1.min_lanes(m1.shuffle(1, 0, 0, 0));
        m2.x
    }

    /// Horizontal maximum of the three logical lanes, by the same tree as
    /// `min_element`.
    pub fn max_element(self) -> (r: i64)
        ensures
            r == max3(self.reg),
    {
        let m1 = self.reg.max_lanes(self.reg.shuffle(2, 2, 1, 1));
        let m2 = m1.max_lanes(m1.shuffle(1, 0, 0, 0));
        m2.x
    }

    /// Horizontal minimum as the pairwise-minimum backends sequence it:
    /// `min(min(x, y), min(z, w))`. This tree does fold the padding lane in,
    /// so it is correct only while that lane duplicates z — the historic
    /// constructor invariant, which must not be assumed of arbitrary lane
    /// contents.
    pub fn min_element_pairwise(self) -> (r: i64)
        requires
            self.reg.w == self.reg.z,
        ensures
            r == min3(self.reg),
    {
        let p = self.reg.pairwise_min(self.reg);
        let p2 = p.pairwise_min(p);
        p2.x
    }

    /// Horizontal maximum by the pairwise tree; like `min_element_pairwise`
    /// it needs the padding lane to duplicate z.
    pub fn max_element_pairwise(self) -> (r: i64)
        requires
            self.reg.w == self.reg.z,
        ensures
            r == max3(self.reg),
    {
        let p = self.reg.pairwise_max(self.reg);
        let p2 = p.pairwise_max(p);
        p2.x
    }

    /// Lane `i` of the three, or `None` for an index at or past the logical
    /// dimension: the out-of-bounds condition. The padding lane is not
    /// addressable.
    pub fn lane(&self, i: usize) -> (r: Option<i64>)
        ensures
            i < 3 ==> r == Some(self.reg.spec_lane(i as int)),
            i >= 3 ==> r is None,
    {
        if i < 3 {
            Some(self.reg.lane(i))
        } else {
            None
        }
    }

    /// Lane `i` of the three; an index past the logical dimension is out of
    /// bounds and excluded.
    pub fn index(&self, i: usize) -> (r: i64)
        requires
            i < 3,
        ensures
            r == self.reg.spec_lane(i as int),
    {
        self.reg.lane(i)
    }

    /// Replaces lane `i` of the three; the padding lane stays put.
    pub fn set_index(&mut self, i: usize, v: i64)
        requires
            i < 3,
        ensures
            final(self).reg.spec_lane(i as int) == v,
            forall|j: int| 0 <= j < 4 && j != i ==> final(self).reg.spec_lane(j)
                == old(self).reg.spec_lane(j),
    {
        if i == 0 {
            self.reg.x = v;
        } else if i == 1 {
            self.reg.y = v;
        } else {
            self.reg.z = v;
        }
    }

    /// The x component.
    pub fn x(&self) -> (r: i64)
        ensures
            r == self.reg.x,
    {
        self.reg.x
    }

    /// The y component.
    pub fn y(&self) -> (r: i64)
        ensures
            r == self.reg.y,
    {
        self.reg.y
    }

    /// The z component.
    pub fn z(&self) -> (r: i64)
        ensures
            r == self.reg.z,
    {
        self.reg.z
    }

    /// The display form `[x, y, z]`; the padding lane is not shown.
    pub fn display(&self) -> (r: String)
        requires
            self.reg.x > i64::MIN,
            self.reg.y > i64::MIN,
            self.reg.z > i64::MIN,
        ensures
            r@ == crate::text::bracketed3(self.reg.x as int, self.reg.y as int, self.reg.z as int),
    {
        crate::text::bracketed3_string(self.reg.x, self.reg.y, self.reg.z)
    }
}

/// The magnitude of one lane.
pub open spec fn abs_lane(a: i64) -> int {
    if a < 0 {
        -(a as int)
    } else {
        a as int
    }
}

} // verus!
