//! The 4-lane register abstraction.
//!
//! Every value type of this crate is stored in one hardware-width register of
//! four scalar lanes, kept here in logical order `x, y, z, w` = physical
//! lanes `0..4`. The operations below are the lane-level primitives that the
//! per-architecture backends provide in one instruction or a short fixed
//! sequence: lane construction, permutes ("shuffles"), lane-wise arithmetic
//! and minimum/maximum, pairwise ("horizontal") combines, and lane masking.
//! Lanes are exact integers here, so each primitive's contract pins the full
//! lane routing exactly.

use vstd::prelude::*;

verus! {

/// Lane magnitude under which every product of two lanes, and every sum of
/// four such products, stays well inside the scalar range.
pub const LANE_LIMIT: i64 = 0x4000_0000;

/// Lane magnitude under which a single lane-wise sum or difference stays in
/// range.
pub const SUM_LIMIT: i64 = 0x3FFF_FFFF_FFFF_FFFF;

/// One register: four scalar lanes in logical order (x, y, z, w).
///
/// The in-memory layout of the hardware register equals this field order on
/// every backend; the bit-cast constructor (`new`) relies on that and nothing
/// else.
#[derive(Clone, Copy, PartialEq, Eq, Structural, Debug)]
pub struct Reg {
    pub x: i64,
    pub y: i64,
    pub z: i64,
    pub w: i64,
}

impl Reg {
    /// Lane `i` of the register, lanes numbered 0..4 in (x, y, z, w) order.
    pub open spec fn spec_lane(self, i: int) -> i64 {
        if i == 0 {
            self.x
        } else if i == 1 {
            self.y
        } else if i == 2 {
            self.z
        } else {
            self.w
        }
    }

    /// All four lane magnitudes bounded by `bound`.
    pub open spec fn within(self, bound: int) -> bool {
        &&& -bound <= self.x <= bound
        &&& -bound <= self.y <= bound
        &&& -bound <= self.z <= bound
        &&& -bound <= self.w <= bound
    }

    /// The bit-cast constructor: build a register from four scalar lanes.
    ///
    /// The physical lane layout equals the logical (x, y, z, w) order.
    pub fn new(x: i64, y: i64, z: i64, w: i64) -> (r: Reg)
        ensures
            r == (Reg { x, y, z, w }),
    {
        Reg { x, y, z, w }
    }

    /// Broadcast one scalar into every lane.
    pub fn splat(v: i64) -> (r: Reg)
        ensures
            r == (Reg { x: v, y: v, z: v, w: v }),
    {
        Reg { x: v, y: v, z: v, w: v }
    }

    /// Read lane `i` at runtime.
    pub fn lane(self, i: usize) -> (r: i64)
        requires
            i < 4,
        ensures
            r == self.spec_lane(i as int),
    {
        if i == 0 {
            self.x
        } else if i == 1 {
            self.y
        } else if i == 2 {
            self.z
        } else {
            self.w
        }
    }

    /// Lane permute: result lane `k` is source lane `i_k`.
    ///
    /// This is the one-instruction shuffle every backend offers; the index
    /// quadruple is the backend-independent meaning of its immediate or byte
    /// table.
    pub fn shuffle(self, i0: usize, i1: usize, i2: usize, i3: usize) -> (r: Reg)
        requires
            i0 < 4,
            i1 < 4,
            i2 < 4,
            i3 < 4,
        ensures
            r.x == self.spec_lane(i0 as int),
            r.y == self.spec_lane(i1 as int),
            r.z == self.spec_lane(i2 as int),
            r.w == self.spec_lane(i3 as int),
    {
        Reg { x: self.lane(i0), y: self.lane(i1), z: self.lane(i2), w: self.lane(i3) }
    }

    /// Lane-wise sum.
    pub fn add_lanes(self, rhs: Reg) -> (r: Reg)
        requires
            self.within(SUM_LIMIT as int),
            rhs.within(SUM_LIMIT as int),
        ensures
            r.x == self.x + rhs.x,
            r.y == self.y + rhs.y,
            r.z == self.z + rhs.z,
            r.w == self.w + rhs.w,
    {
        Reg { x: self.x + rhs.x, y: self.y + rhs.y, z: self.z + rhs.z, w: self.w + rhs.w }
    }

    /// Lane-wise difference.
    pub fn sub_lanes(self, rhs: Reg) -> (r: Reg)
        requires
            self.within(SUM_LIMIT as int),
            rhs.within(SUM_LIMIT as int),
        ensures
            r.x == self.x - rhs.x,
            r.y == self.y - rhs.y,
            r.z == self.z - rhs.z,
            r.w == self.w - rhs.w,
    {
        Reg { x: self.x - rhs.x, y: self.y - rhs.y, z: self.z - rhs.z, w: self.w - rhs.w }
    }

    /// Lane-wise product.
    pub fn mul_lanes(self, rhs: Reg) -> (r: Reg)
        requires
            self.within(LANE_LIMIT as int),
            rhs.within(LANE_LIMIT as int),
        ensures
            r.x == self.x * rhs.x,
            r.y == self.y * rhs.y,
            r.z == self.z * rhs.z,
            r.w == self.w * rhs.w,
            r.within(LANE_LIMIT as int * LANE_LIMIT as int),
    {
        proof {
            lemma_mul_magnitude(self.x as int, rhs.x as int, LANE_LIMIT as int);
            lemma_mul_magnitude(self.y as int, rhs.y as int, LANE_LIMIT as int);
            lemma_mul_magnitude(self.z as int, rhs.z as int, LANE_LIMIT as int);
            lemma_mul_magnitude(self.w as int, rhs.w as int, LANE_LIMIT as int);
        }
        Reg { x: self.x * rhs.x, y: self.y * rhs.y, z: self.z * rhs.z, w: self.w * rhs.w }
    }

    /// Lane-wise minimum: each lane takes the smaller operand lane.
    pub fn min_lanes(self, rhs: Reg) -> (r: Reg)
        ensures
            r == min_reg(self, rhs),
    {
        Reg {
            x: min_exec(self.x, rhs.x),
            y: min_exec(self.y, rhs.y),
            z: min_exec(self.z, rhs.z),
            w: min_exec(self.w, rhs.w),
        }
    }

    /// Lane-wise maximum: each lane takes the larger operand lane.
    pub fn max_lanes(self, rhs: Reg) -> (r: Reg)
        ensures
            r == max_reg(self, rhs),
    {
        Reg {
            x: max_exec(self.x, rhs.x),
            y: max_exec(self.y, rhs.y),
            z: max_exec(self.z, rhs.z),
            w: max_exec(self.w, rhs.w),
        }
    }

    /// Sum into lane 0 only; the upper three lanes pass the left operand
    /// through. This is the scalar-slot add of the 128-bit families.
    pub fn add_lane0(self, rhs: Reg) -> (r: Reg)
        requires
            self.within(SUM_LIMIT as int),
            rhs.within(SUM_LIMIT as int),
        ensures
            r.x == self.x + rhs.x,
            r.y == self.y,
            r.z == self.z,
            r.w == self.w,
    {
        Reg { x: self.x + rhs.x, y: self.y, z: self.z, w: self.w }
    }

    /// Horizontal pairwise sum: `(a.x+a.y, a.z+a.w, b.x+b.y, b.z+b.w)`.
    pub fn pairwise_add(self, rhs: Reg) -> (r: Reg)
        requires
            self.within(SUM_LIMIT as int),
            rhs.within(SUM_LIMIT as int),
        ensures
            r.x == self.x + self.y,
            r.y == self.z + self.w,
            r.z == rhs.x + rhs.y,
            r.w == rhs.z + rhs.w,
    {
        Reg { x: self.x + self.y, y: self.z + self.w, z: rhs.x + rhs.y, w: rhs.z + rhs.w }
    }

    /// Horizontal pairwise minimum: `(min(a.x,a.y), min(a.z,a.w), ...)`.
    pub fn pairwise_min(self, rhs: Reg) -> (r: Reg)
        ensures
            r == (Reg {
                x: min_lane(self.x, self.y),
                y: min_lane(self.z, self.w),
                z: min_lane(rhs.x, rhs.y),
                w: min_lane(rhs.z, rhs.w),
            }),
    {
        Reg {
            x: min_exec(self.x, self.y),
            y: min_exec(self.z, self.w),
            z: min_exec(rhs.x, rhs.y),
            w: min_exec(rhs.z, rhs.w),
        }
    }

    /// Horizontal pairwise maximum: `(max(a.x,a.y), max(a.z,a.w), ...)`.
    pub fn pairwise_max(self, rhs: Reg) -> (r: Reg)
        ensures
            r == (Reg {
                x: max_lane(self.x, self.y),
                y: max_lane(self.z, self.w),
                z: max_lane(rhs.x, rhs.y),
                w: max_lane(rhs.z, rhs.w),
            }),
    {
        Reg {
            x: max_exec(self.x, self.y),
            y: max_exec(self.z, self.w),
            z: max_exec(rhs.x, rhs.y),
            w: max_exec(rhs.z, rhs.w),
        }
    }

    /// Keep lanes x, y and z and force lane w to the neutral value zero.
    ///
    /// This is the select-mask trick: AND with a pattern whose first three
    /// lanes are all-one bits and whose last lane is all-zero bits.
    pub fn mask_xyz(self) -> (r: Reg)
        ensures
            r == (Reg { x: self.x, y: self.y, z: self.z, w: 0i64 }),
    {
        Reg { x: self.x, y: self.y, z: self.z, w: 0 }
    }

    /// Negate lane y and pass the rest through.
    ///
    /// In the backends this is one XOR with the y sign-flip pattern.
    pub fn flip_y(self) -> (r: Reg)
        requires
            self.y > i64::MIN,
        ensures
            r.x == self.x,
            r.y == -self.y,
            r.z == self.z,
            r.w == self.w,
    {
        Reg { x: self.x, y: -self.y, z: self.z, w: self.w }
    }
}

/// Lane-wise minimum of two registers.
pub open spec fn min_reg(a: Reg, b: Reg) -> Reg {
    Reg {
        x: min_lane(a.x, b.x),
        y: min_lane(a.y, b.y),
        z: min_lane(a.z, b.z),
        w: min_lane(a.w, b.w),
    }
}

/// Lane-wise maximum of two registers.
pub open spec fn max_reg(a: Reg, b: Reg) -> Reg {
    Reg {
        x: max_lane(a.x, b.x),
        y: max_lane(a.y, b.y),
        z: max_lane(a.z, b.z),
        w: max_lane(a.w, b.w),
    }
}

/// One lane clamped between a lower and an upper bound, upper bound last:
/// `min(max(v, lo), hi)`.
pub open spec fn clamp_lane(v: i64, lo: i64, hi: i64) -> i64 {
    min_lane(max_lane(v, lo), hi)
}

/// Lane-wise clamp of a register between two bound registers.
pub open spec fn clamp_reg(v: Reg, lo: Reg, hi: Reg) -> Reg {
    min_reg(max_reg(v, lo), hi)
}

/// The smaller of two lanes: `a` exactly when `a < b`, else `b`. Taking the
/// second operand on ties is the compare-and-select policy of the native
/// minimum instructions; over exact integer lanes the tie-break is
/// unobservable, which is the one canonical policy this crate fixes.
pub open spec fn min_lane(a: i64, b: i64) -> i64 {
    if a < b {
        a
    } else {
        b
    }
}

/// The larger of two lanes, with the same second-operand tie policy as
/// `min_lane`.
pub open spec fn max_lane(a: i64, b: i64) -> i64 {
    if a > b {
        a
    } else {
        b
    }
}

fn min_exec(a: i64, b: i64) -> (r: i64)
    ensures
        r == min_lane(a, b),
{
    if a < b {
        a
    } else {
        b
    }
}

fn max_exec(a: i64, b: i64) -> (r: i64)
    ensures
        r == max_lane(a, b),
{
    if a > b {
        a
    } else {
        b
    }
}

/// A product of two magnitudes bounded by `m` is bounded by `m * m`.
pub proof fn lemma_mul_magnitude(a: int, b: int, m: int)
    by (nonlinear_arith)
    requires
        -m <= a <= m,
        -m <= b <= m,
        0 <= m,
    ensures
        -(m * m) <= a * b <= m * m,
{
}

} // verus!
