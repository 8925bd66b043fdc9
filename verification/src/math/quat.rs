//! A quaternion representing an orientation: a thin reinterpretation of the
//! 4-lane register with (x, y, z) as the vector part and w as the scalar
//! part. The identity orientation is (0, 0, 0, 1).

use vstd::prelude::*;

use crate::math::reg::Reg;
use crate::math::vec4::Vec4;

verus! {

/// A quaternion stored as a `Vec4`.
#[derive(Clone, Copy, Debug)]
pub struct Quat {
    pub v: Vec4,
}

/// Creates a rotation quaternion from its four components.
pub fn quat(x: i64, y: i64, z: i64, w: i64) -> (r: Quat)
    ensures
        r.v.reg == (Reg { x, y, z, w }),
{
    Quat::from_xyzw(x, y, z, w)
}

impl Quat {
    /// Creates a new rotation quaternion; the lane layout is that of `Vec4`.
    pub fn from_xyzw(x: i64, y: i64, z: i64, w: i64) -> (r: Quat)
        ensures
            r.v.reg == (Reg { x, y, z, w }),
    {
        Quat { v: Vec4::new(x, y, z, w) }
    }

    /// Creates a new rotation quaternion from an array.
    pub fn from_array(a: [i64; 4]) -> (r: Quat)
        ensures
            r.v.reg == (Reg { x: a[0], y: a[1], z: a[2], w: a[3] }),
    {
        Quat { v: Vec4::from_array(a) }
    }

    /// Creates a new rotation quaternion from a 4-dimensional vector.
    pub fn from_vec4(v: Vec4) -> (r: Quat)
        ensures
            r.v == v,
    {
        Quat { v }
    }

    /// All zeroes.
    pub fn zero() -> (r: Quat)
        ensures
            r.v.reg == (Reg { x: 0i64, y: 0i64, z: 0i64, w: 0i64 }),
    {
        Quat { v: Vec4::zero() }
    }

    /// The identity quaternion: no rotation.
    pub fn identity() -> (r: Quat)
        ensures
            r.v.reg == (Reg { x: 0i64, y: 0i64, z: 0i64, w: 1i64 }),
    {
        Quat::from_xyzw(0, 0, 0, 1)
    }

    pub fn to_array(&self) -> (r: [i64; 4])
        ensures
            r == [self.v.reg.x, self.v.reg.y, self.v.reg.z, self.v.reg.w],
    {
        self.v.to_array()
    }

    pub fn from_tuple(t: (i64, i64, i64, i64)) -> (r: Quat)
        ensures
            r.v.reg == (Reg { x: t.0, y: t.1, z: t.2, w: t.3 }),
    {
        Quat::from_xyzw(t.0, t.1, t.2, t.3)
    }

    pub fn to_tuple(&self) -> (r: (i64, i64, i64, i64))
        ensures
            r == (self.v.reg.x, self.v.reg.y, self.v.reg.z, self.v.reg.w),
    {
        self.v.to_tuple()
    }

    /// Lane `i`, or `None` for an index at or past the logical dimension:
    /// the out-of-bounds condition.
    pub fn lane(&self, i: usize) -> (r: Option<i64>)
        ensures
            i < 4 ==> r == Some(self.v.reg.spec_lane(i as int)),
            i >= 4 ==> r is None,
    {
        self.v.lane(i)
    }

    /// Lane `i` of the four; an index past the logical dimension is out of
    /// bounds and excluded.
    pub fn index(&self, i: usize) -> (r: i64)
        requires
            i < 4,
        ensures
            r == self.v.reg.spec_lane(i as int),
    {
        self.v.index(i)
    }

    /// Replaces lane `i`; an index past the logical dimension is out of
    /// bounds and excluded.
    pub fn set_index(&mut self, i: usize, val: i64)
        requires
            i < 4,
        ensures
            final(self).v.reg.spec_lane(i as int) == val,
            forall|j: int| 0 <= j < 4 && j != i ==> final(self).v.reg.spec_lane(j)
                == old(self).v.reg.spec_lane(j),
    {
        self.v.set_index(i, val);
    }

    /// The x component.
    pub fn x(&self) -> (r: i64)
        ensures
            r == self.v.reg.x,
    {
        self.v.x()
    }

    /// The y component.
    pub fn y(&self) -> (r: i64)
        ensures
            r == self.v.reg.y,
    {
        self.v.y()
    }

    /// The z component.
    pub fn z(&self) -> (r: i64)
        ensures
            r == self.v.reg.z,
    {
        self.v.z()
    }

    /// The w component.
    pub fn w(&self) -> (r: i64)
        ensures
            r == self.v.reg.w,
    {
        self.v.w()
    }

    /// The display form `[x, y, z, w]`.
    pub fn display(&self) -> (r: String)
        requires
            self.v.reg.x > i64::MIN,
            self.v.reg.y > i64::MIN,
            self.v.reg.z > i64::MIN,
            self.v.reg.w > i64::MIN,
        ensures
            r@ == crate::text::bracketed4(
                self.v.reg.x as int,
                self.v.reg.y as int,
                self.v.reg.z as int,
                self.v.reg.w as int,
            ),
    {
        self.v.display()
    }
}

} // verus!
