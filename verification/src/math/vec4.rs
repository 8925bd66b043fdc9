//! A 4-component vector stored in one 4-lane register; all four lanes are
//! meaningful.
//!
//! The reductions (`dot`, `min_element`, `max_element`) are written as the
//! 128-bit backends sequence them — lane-wise products followed by a
//! shuffle/pairwise combining tree — and each carries a contract equating it
//! to the plain componentwise definition, which is what makes the backend
//! sequences interchangeable.

use vstd::prelude::*;

use crate::math::reg::{clamp_reg, max_lane, max_reg, min_lane, min_reg, Reg, LANE_LIMIT, SUM_LIMIT};
use crate::math::vec3::Vec3;

verus! {

/// A 4-component vector (x, y, z, w), one register lane each.
#[derive(Clone, Copy, Debug)]
pub struct Vec4 {
    pub reg: Reg,
}

/// The dot product of two registers over all four lanes.
pub open spec fn dot4(a: Reg, b: Reg) -> int {
    a.x * b.x + a.y * b.y + a.z * b.z + a.w * b.w
}

/// The smallest of the four lanes.
pub open spec fn min4(r: Reg) -> i64 {
    min_lane(min_lane(min_lane(r.x, r.y), r.z), r.w)
}

/// The largest of the four lanes.
pub open spec fn max4(r: Reg) -> i64 {
    max_lane(max_lane(max_lane(r.x, r.y), r.z), r.w)
}

/// Creates a 4-dimensional vector.
pub fn vec4(x: i64, y: i64, z: i64, w: i64) -> (r: Vec4)
    ensures
        r.reg == (Reg { x, y, z, w }),
{
    Vec4::new(x, y, z, w)
}

impl Vec4 {
    /// Creates a new vector. Logical (x, y, z, w) order equals physical lane
    /// order 0..4.
    pub fn new(x: i64, y: i64, z: i64, w: i64) -> (r: Vec4)
        ensures
            r.reg == (Reg { x, y, z, w }),
    {
        Vec4 { reg: Reg::new(x, y, z, w) }
    }

    /// Creates a vector with all elements set to `v`.
    pub fn splat(v: i64) -> (r: Vec4)
        ensures
            r.reg == (Reg { x: v, y: v, z: v, w: v }),
    {
        Vec4 { reg: Reg::splat(v) }
    }

    /// All zeroes.
    pub fn zero() -> (r: Vec4)
        ensures
            r.reg == (Reg { x: 0i64, y: 0i64, z: 0i64, w: 0i64 }),
    {
        Vec4::splat(0)
    }

    /// All ones.
    pub fn one() -> (r: Vec4)
        ensures
            r.reg == (Reg { x: 1i64, y: 1i64, z: 1i64, w: 1i64 }),
    {
        Vec4::splat(1)
    }

    /// All negative ones.
    pub fn neg_one() -> (r: Vec4)
        ensures
            r.reg == (Reg { x: -1i64, y: -1i64, z: -1i64, w: -1i64 }),
    {
        Vec4::splat(-1)
    }

    /// The unit vector along the positive x axis.
    pub fn axis_x() -> (r: Vec4)
        ensures
            r.reg == (Reg { x: 1i64, y: 0i64, z: 0i64, w: 0i64 }),
    {
        Vec4::new(1, 0, 0, 0)
    }

    /// The unit vector along the positive y axis.
    pub fn axis_y() -> (r: Vec4)
        ensures
            r.reg == (Reg { x: 0i64, y: 1i64, z: 0i64, w: 0i64 }),
    {
        Vec4::new(0, 1, 0, 0)
    }

    /// The unit vector along the positive z axis.
    pub fn axis_z() -> (r: Vec4)
        ensures
            r.reg == (Reg { x: 0i64, y: 0i64, z: 1i64, w: 0i64 }),
    {
        Vec4::new(0, 0, 1, 0)
    }

    /// The unit vector along the positive w axis.
    pub fn axis_w() -> (r: Vec4)
        ensures
            r.reg == (Reg { x: 0i64, y: 0i64, z: 0i64, w: 1i64 }),
    {
        Vec4::new(0, 0, 0, 1)
    }

    pub fn from_array(a: [i64; 4]) -> (r: Vec4)
        ensures
            r.reg == (Reg { x: a[0], y: a[1], z: a[2], w: a[3] }),
    {
        Vec4::new(a[0], a[1], a[2], a[3])
    }

    pub fn to_array(&self) -> (r: [i64; 4])
        ensures
            r == [self.reg.x, self.reg.y, self.reg.z, self.reg.w],
    {
        [self.reg.x, self.reg.y, self.reg.z, self.reg.w]
    }

    pub fn from_tuple(t: (i64, i64, i64, i64)) -> (r: Vec4)
        ensures
            r.reg == (Reg { x: t.0, y: t.1, z: t.2, w: t.3 }),
    {
        Vec4::new(t.0, t.1, t.2, t.3)
    }

    pub fn to_tuple(&self) -> (r: (i64, i64, i64, i64))
        ensures
            r == (self.reg.x, self.reg.y, self.reg.z, self.reg.w),
    {
        (self.reg.x, self.reg.y, self.reg.z, self.reg.w)
    }

    /// The first four elements of a slice, as a vector. A shorter slice is
    /// out of bounds.
    pub fn from_slice(a: &[i64]) -> (r: Vec4)
        requires
            a@.len() >= 4,
        ensures
            r.reg == (Reg { x: a@[0], y: a@[1], z: a@[2], w: a@[3] }),
    {
        Vec4::new(a[0], a[1], a[2], a[3])
    }

    /// Writes the four components to the head of `slice`. A destination
    /// shorter than four is out of bounds.
    pub fn write_to_slice(self, slice: &mut Vec<i64>)
        requires
            old(slice)@.len() >= 4,
        ensures
            final(slice)@.len() == old(slice)@.len(),
            final(slice)@[0] == self.reg.x,
            final(slice)@[1] == self.reg.y,
            final(slice)@[2] == self.reg.z,
            final(slice)@[3] == self.reg.w,
            forall|i: int| 4 <= i < old(slice)@.len() ==> final(slice)@[i] == old(slice)@[i],
    {
        slice.set(0, self.reg.x);
        slice.set(1, self.reg.y);
        slice.set(2, self.reg.z);
        slice.set(3, self.reg.w);
    }

    /// Lane-wise minimum.
    pub fn min(self, rhs: Vec4) -> (r: Vec4)
        ensures
            r.reg == min_reg(self.reg, rhs.reg),
    {
        Vec4 { reg: self.reg.min_lanes(rhs.reg) }
    }

    /// Lane-wise maximum.
    pub fn max(self, rhs: Vec4) -> (r: Vec4)
        ensures
            r.reg == max_reg(self.reg, rhs.reg),
    {
        Vec4 { reg: self.reg.max_lanes(rhs.reg) }
    }

    /// `min(max(self, lo), hi)`, lane by lane. Bounds are not validated:
    /// `lo > hi` simply yields what `max` then `min` yields.
    pub fn clamp(self, lo: Vec4, hi: Vec4) -> (r: Vec4)
        ensures
            r.reg == clamp_reg(self.reg, lo.reg, hi.reg),
    {
        self.max(lo).min(hi)
    }

    /// Dot product over all four lanes, sequenced as the one-instruction
    /// pairwise-add backends do: lane products, then a two-level pairwise
    /// tree `(px + py) + (pz + pw)`.
    pub fn dot(self, rhs: Vec4) -> (r: i64)
        requires
            self.reg.within(LANE_LIMIT as int),
            rhs.reg.within(LANE_LIMIT as int),
        ensures
            r == dot4(self.reg, rhs.reg),
    {
        let mul = self.reg.mul_lanes(rhs.reg);
        let h = mul.pairwise_add(mul);
        let h2 = h.pairwise_add(h);
        h2.x
    }

    /// The same dot product sequenced as the shuffle-and-add backends do:
    /// fold the upper half onto the lower, then lane 1 onto lane 0.
    pub fn dot_via_shuffles(self, rhs: Vec4) -> (r: i64)
        requires
            self.reg.within(LANE_LIMIT as int),
            rhs.reg.within(LANE_LIMIT as int),
        ensures
            r == dot4(self.reg, rhs.reg),
    {
        let mul = self.reg.mul_lanes(rhs.reg);
        let folded = mul.add_lanes(mul.shuffle(2, 3, 0, 0));
        let total = folded.add_lane0(folded.shuffle(1, 0, 0, 0));
        total.x
    }

    /// The same dot product as the structural scalar fallback computes it:
    /// a left-to-right sequential sum of the lane products.
    pub fn dot_sequential(self, rhs: Vec4) -> (r: i64)
        requires
            self.reg.within(LANE_LIMIT as int),
            rhs.reg.within(LANE_LIMIT as int),
        ensures
            r == dot4(self.reg, rhs.reg),
    {
        proof {
            crate::math::reg::lemma_mul_magnitude(
                self.reg.x as int,
                rhs.reg.x as int,
                LANE_LIMIT as int,
            );
            crate::math::reg::lemma_mul_magnitude(
                self.reg.y as int,
                rhs.reg.y as int,
                LANE_LIMIT as int,
            );
            crate::math::reg::lemma_mul_magnitude(
                self.reg.z as int,
                rhs.reg.z as int,
                LANE_LIMIT as int,
            );
            crate::math::reg::lemma_mul_magnitude(
                self.reg.w as int,
                rhs.reg.w as int,
                LANE_LIMIT as int,
            );
        }
        ((self.reg.x * rhs.reg.x) + (self.reg.y * rhs.reg.y)) + ((self.reg.z * rhs.reg.z)
            + (self.reg.w * rhs.reg.w))
    }

    /// The dot product broadcast into every lane of a `Vec4`.
    pub fn dot_into_vec4(self, rhs: Vec4) -> (r: Vec4)
        requires
            self.reg.within(LANE_LIMIT as int),
            rhs.reg.within(LANE_LIMIT as int),
        ensures
            r.reg.x == dot4(self.reg, rhs.reg),
            r.reg.y == dot4(self.reg, rhs.reg),
            r.reg.z == dot4(self.reg, rhs.reg),
            r.reg.w == dot4(self.reg, rhs.reg),
    {
        let d = self.dot(rhs);
        Vec4 { reg: Reg::splat(d).shuffle(0, 0, 0, 0) }
    }

    /// The dot product broadcast into every lane of a `Vec3`, its padding
    /// lane included.
    pub fn dot_into_vec3(self, rhs: Vec4) -> (r: Vec3)
        requires
            self.reg.within(LANE_LIMIT as int),
            rhs.reg.within(LANE_LIMIT as int),
        ensures
            r.reg.x == dot4(self.reg, rhs.reg),
            r.reg.y == dot4(self.reg, rhs.reg),
            r.reg.z == dot4(self.reg, rhs.reg),
            r.reg.w == dot4(self.reg, rhs.reg),
    {
        let d = self.dot(rhs);
        Vec3 { reg: Reg::splat(d) }
    }

    /// Horizontal minimum over all four lanes, sequenced as the shuffle-tree
    /// backends do: fold (z, w) onto (x, y), then lane 1 onto lane 0.
    pub fn min_element(self) -> (r: i64)
        ensures
            r == min4(self.reg),
    {
        let m1 = self.reg.min_lanes(self.reg.shuffle(2, 3, 0, 0));
        let m2 = m1.min_lanes(m1.shuffle(1, 0, 0, 0));
        m2.x
    }

    /// Horizontal maximum over all four lanes, by the same tree as
    /// `min_element`.
    pub fn max_element(self) -> (r: i64)
        ensures
            r == max4(self.reg),
    {
        let m1 = self.reg.max_lanes(self.reg.shuffle(2, 3, 0, 0));
        let m2 = m1.max_lanes(m1.shuffle(1, 0, 0, 0));
        m2.x
    }

    /// Horizontal minimum as the pairwise-minimum backends sequence it:
    /// `min(min(x, y), min(z, w))`.
    pub fn min_element_pairwise(self) -> (r: i64)
        ensures
            r == min4(self.reg),
    {
        let p = self.reg.pairwise_min(self.reg);
        let p2 = p.pairwise_min(p);
        p2.x
    }

    /// Horizontal maximum as the pairwise-maximum backends sequence it.
    pub fn max_element_pairwise(self) -> (r: i64)
        ensures
            r == max4(self.reg),
    {
        let p = self.reg.pairwise_max(self.reg);
        let p2 = p.pairwise_max(p);
        p2.x
    }

    /// Lane-wise sum of two vectors.
    pub fn add(self, rhs: Vec4) -> (r: Vec4)
        requires
            self.reg.within(SUM_LIMIT as int),
            rhs.reg.within(SUM_LIMIT as int),
        ensures
            r.reg.x == self.reg.x + rhs.reg.x,
            r.reg.y == self.reg.y + rhs.reg.y,
            r.reg.z == self.reg.z + rhs.reg.z,
            r.reg.w == self.reg.w + rhs.reg.w,
    {
        Vec4 { reg: self.reg.add_lanes(rhs.reg) }
    }

    /// Lane-wise difference of two vectors.
    pub fn sub(self, rhs: Vec4) -> (r: Vec4)
        requires
            self.reg.within(SUM_LIMIT as int),
            rhs.reg.within(SUM_LIMIT as int),
        ensures
            r.reg.x == self.reg.x - rhs.reg.x,
            r.reg.y == self.reg.y - rhs.reg.y,
            r.reg.z == self.reg.z - rhs.reg.z,
            r.reg.w == self.reg.w - rhs.reg.w,
    {
        Vec4 { reg: self.reg.sub_lanes(rhs.reg) }
    }

    /// Lane-wise product of two vectors.
    pub fn mul(self, rhs: Vec4) -> (r: Vec4)
        requires
            self.reg.within(LANE_LIMIT as int),
            rhs.reg.within(LANE_LIMIT as int),
        ensures
            r.reg.x == self.reg.x * rhs.reg.x,
            r.reg.y == self.reg.y * rhs.reg.y,
            r.reg.z == self.reg.z * rhs.reg.z,
            r.reg.w == self.reg.w * rhs.reg.w,
    {
        Vec4 { reg: self.reg.mul_lanes(rhs.reg) }
    }

    /// Adds the broadcast of a scalar, as the scalar-operand forms do.
    pub fn add_scalar(self, rhs: i64) -> (r: Vec4)
        requires
            self.reg.within(SUM_LIMIT as int),
            -SUM_LIMIT <= rhs <= SUM_LIMIT,
        ensures
            r.reg.x == self.reg.x + rhs,
            r.reg.y == self.reg.y + rhs,
            r.reg.z == self.reg.z + rhs,
            r.reg.w == self.reg.w + rhs,
    {
        Vec4 { reg: self.reg.add_lanes(Reg::splat(rhs)) }
    }

    /// Subtracts the broadcast of a scalar.
    pub fn sub_scalar(self, rhs: i64) -> (r: Vec4)
        requires
            self.reg.within(SUM_LIMIT as int),
            -SUM_LIMIT <= rhs <= SUM_LIMIT,
        ensures
            r.reg.x == self.reg.x - rhs,
            r.reg.y == self.reg.y - rhs,
            r.reg.z == self.reg.z - rhs,
            r.reg.w == self.reg.w - rhs,
    {
        Vec4 { reg: self.reg.sub_lanes(Reg::splat(rhs)) }
    }

    /// Multiplies by the broadcast of a scalar.
    pub fn mul_scalar(self, rhs: i64) -> (r: Vec4)
        requires
            self.reg.within(LANE_LIMIT as int),
            -LANE_LIMIT <= rhs <= LANE_LIMIT,
        ensures
            r.reg.x == self.reg.x * rhs,
            r.reg.y == self.reg.y * rhs,
            r.reg.z == self.reg.z * rhs,
            r.reg.w == self.reg.w * rhs,
    {
        Vec4 { reg: self.reg.mul_lanes(Reg::splat(rhs)) }
    }

    /// In-place lane-wise sum.
    pub fn add_assign(&mut self, rhs: Vec4)
        requires
            old(self).reg.within(SUM_LIMIT as int),
            rhs.reg.within(SUM_LIMIT as int),
        ensures
            final(self).reg.x == old(self).reg.x + rhs.reg.x,
            final(self).reg.y == old(self).reg.y + rhs.reg.y,
            final(self).reg.z == old(self).reg.z + rhs.reg.z,
            final(self).reg.w == old(self).reg.w + rhs.reg.w,
    {
        self.reg = self.reg.add_lanes(rhs.reg);
    }

    /// In-place lane-wise difference.
    pub fn sub_assign(&mut self, rhs: Vec4)
        requires
            old(self).reg.within(SUM_LIMIT as int),
            rhs.reg.within(SUM_LIMIT as int),
        ensures
            final(self).reg.x == old(self).reg.x - rhs.reg.x,
            final(self).reg.y == old(self).reg.y - rhs.reg.y,
            final(self).reg.z == old(self).reg.z - rhs.reg.z,
            final(self).reg.w == old(self).reg.w - rhs.reg.w,
    {
        self.reg = self.reg.sub_lanes(rhs.reg);
    }

    /// In-place lane-wise product.
    pub fn mul_assign(&mut self, rhs: Vec4)
        requires
            old(self).reg.within(LANE_LIMIT as int),
            rhs.reg.within(LANE_LIMIT as int),
        ensures
            final(self).reg.x == old(self).reg.x * rhs.reg.x,
            final(self).reg.y == old(self).reg.y * rhs.reg.y,
            final(self).reg.z == old(self).reg.z * rhs.reg.z,
            final(self).reg.w == old(self).reg.w * rhs.reg.w,
    {
        self.reg = self.reg.mul_lanes(rhs.reg);
    }

    /// Lane `i`, or `None` for an index at or past the logical dimension:
    /// the out-of-bounds condition.
    pub fn lane(&self, i: usize) -> (r: Option<i64>)
        ensures
            i < 4 ==> r == Some(self.reg.spec_lane(i as int)),
            i >= 4 ==> r is None,
    {
        if i < 4 {
            Some(self.reg.lane(i))
        } else {
            None
        }
    }

    /// Lane `i` of the four; an index past the logical dimension is out of
    /// bounds and excluded.
    pub fn index(&self, i: usize) -> (r: i64)
        requires
            i < 4,
        ensures
            r == self.reg.spec_lane(i as int),
    {
        self.reg.lane(i)
    }

    /// Replaces lane `i`; an index past the logical dimension is out of
    /// bounds and excluded.
    pub fn set_index(&mut self, i: usize, v: i64)
        requires
            i < 4,
        ensures
            final(self).reg.spec_lane(i as int) == v,
            forall|j: int| 0 <= j < 4 && j != i ==> final(self).reg.spec_lane(j)
                == old(self).reg.spec_lane(j),
    {
        if i == 0 {
            self.reg.x = v;
        } else if i == 1 {
            self.reg.y = v;
        } else if i == 2 {
            self.reg.z = v;
        } else {
            self.reg.w = v;
        }
    }

    /// The x component.
    pub fn x(&self) -> (r: i64)
        ensures
            r == self.reg.x,
    {
        self.reg.x
    }

    /// The y component.
    pub fn y(&self) -> (r: i64)
        ensures
            r == self.reg.y,
    {
        self.reg.y
    }

    /// The z component.
    pub fn z(&self) -> (r: i64)
        ensures
            r == self.reg.z,
    {
        self.reg.z
    }

    /// The w component.
    pub fn w(&self) -> (r: i64)
        ensures
            r == self.reg.w,
    {
        self.reg.w
    }

    /// The display form `[x, y, z, w]`.
    pub fn display(&self) -> (r: String)
        requires
            self.reg.x > i64::MIN,
            self.reg.y > i64::MIN,
            self.reg.z > i64::MIN,
            self.reg.w > i64::MIN,
        ensures
            r@ == crate::text::bracketed4(
                self.reg.x as int,
                self.reg.y as int,
                self.reg.z as int,
                self.reg.w as int,
            ),
    {
        crate::text::bracketed4_string(self.reg.x, self.reg.y, self.reg.z, self.reg.w)
    }
}

impl Default for Vec4 {
    /// The zero vector.
    fn default() -> (r: Self)
        ensures
            r.reg == (Reg { x: 0i64, y: 0i64, z: 0i64, w: 0i64 }),
    {
        Vec4::zero()
    }
}

} // verus!
