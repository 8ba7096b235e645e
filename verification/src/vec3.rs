//! Three-component fixed-point vectors, 3x3 rotation matrices, and poses.
//!
//! The mathematical model of a vector is `V3`, a triple of unbounded
//! integers; every executable operation states its result exactly over that
//! model. Rotations are plain row matrices: applying one is three dot
//! products, and the inverse of a rotation is its transpose.

use vstd::prelude::*;
use crate::fx::{FX_ONE, FX_MUL_LIM, FX_PROD_BOUND, fx_mul, fx_div, isqrt, fx_mul_s, fx_div_s, tdiv, lemma_fx_mul_s_bound, lemma_tdiv_bound, lemma_sq_fx_bounds, lemma_abs_mul_le, isqrt_s, lemma_isqrt_s_unique};

verus! {

/// Mathematical model of a vector: raw fixed-point ticks, unbounded.
pub struct V3 {
    pub x: int,
    pub y: int,
    pub z: int,
}

/// Mathematical model of a row-major 3x3 matrix.
pub struct M3 {
    pub r0: V3,
    pub r1: V3,
    pub r2: V3,
}

/// A fixed-point vector.
#[derive(Clone, Copy, Debug, PartialEq, Eq, Structural)]
pub struct Vec3 {
    pub x: i64,
    pub y: i64,
    pub z: i64,
}

/// A row-major fixed-point 3x3 matrix; rotations are stored this way.
#[derive(Clone, Copy, Debug, PartialEq, Eq, Structural)]
pub struct Mat3 {
    pub r0: Vec3,
    pub r1: Vec3,
    pub r2: Vec3,
}

/// Position and orientation of a body or of the camera.
#[derive(Clone, Copy, Debug, PartialEq, Eq, Structural)]
pub struct Pose {
    pub translation: Vec3,
    pub rotation: Mat3,
}

impl View for Vec3 {
    type V = V3;

    open spec fn view(&self) -> V3 {
        V3 { x: self.x as int, y: self.y as int, z: self.z as int }
    }
}

impl View for Mat3 {
    type V = M3;

    open spec fn view(&self) -> M3 {
        M3 { r0: self.r0@, r1: self.r1@, r2: self.r2@ }
    }
}

pub open spec fn bounded_s(v: V3, m: int) -> bool {
    &&& -m <= v.x <= m
    &&& -m <= v.y <= m
    &&& -m <= v.z <= m
}

pub open spec fn mat_bounded_s(m: M3, b: int) -> bool {
    bounded_s(m.r0, b) && bounded_s(m.r1, b) && bounded_s(m.r2, b)
}

pub open spec fn plus_s(a: V3, b: V3) -> V3 {
    V3 { x: a.x + b.x, y: a.y + b.y, z: a.z + b.z }
}

pub open spec fn minus_s(a: V3, b: V3) -> V3 {
    V3 { x: a.x - b.x, y: a.y - b.y, z: a.z - b.z }
}

pub open spec fn neg_s(a: V3) -> V3 {
    V3 { x: -a.x, y: -a.y, z: -a.z }
}

pub open spec fn scale_by_s(a: V3, s: int) -> V3 {
    V3 { x: fx_mul_s(a.x, s), y: fx_mul_s(a.y, s), z: fx_mul_s(a.z, s) }
}

pub open spec fn div_by_s(a: V3, s: int) -> V3
    recommends
        s > 0,
{
    V3 { x: fx_div_s(a.x, s), y: fx_div_s(a.y, s), z: fx_div_s(a.z, s) }
}

pub open spec fn dot_s(a: V3, b: V3) -> int {
    fx_mul_s(a.x, b.x) + fx_mul_s(a.y, b.y) + fx_mul_s(a.z, b.z)
}

pub open spec fn cross_s(a: V3, b: V3) -> V3 {
    V3 {
        x: fx_mul_s(a.y, b.z) - fx_mul_s(a.z, b.y),
        y: fx_mul_s(a.z, b.x) - fx_mul_s(a.x, b.z),
        z: fx_mul_s(a.x, b.y) - fx_mul_s(a.y, b.x),
    }
}

pub open spec fn apply_s(m: M3, v: V3) -> V3 {
    V3 { x: dot_s(m.r0, v), y: dot_s(m.r1, v), z: dot_s(m.r2, v) }
}

pub open spec fn transpose_s(m: M3) -> M3 {
    M3 {
        r0: V3 { x: m.r0.x, y: m.r1.x, z: m.r2.x },
        r1: V3 { x: m.r0.y, y: m.r1.y, z: m.r2.y },
        r2: V3 { x: m.r0.z, y: m.r1.z, z: m.r2.z },
    }
}

/// The image of the local `+z` axis: the third column of the matrix.
pub open spec fn colz_s(m: M3) -> V3 {
    V3 { x: m.r0.z, y: m.r1.z, z: m.r2.z }
}

/// The image of the local `+y` axis: the second column of the matrix.
pub open spec fn coly_s(m: M3) -> V3 {
    V3 { x: m.r0.y, y: m.r1.y, z: m.r2.y }
}

/// The image of the local `+x` axis: the first column of the matrix.
pub open spec fn colx_s(m: M3) -> V3 {
    V3 { x: m.r0.x, y: m.r1.x, z: m.r2.x }
}

/// The identity rotation, as a model value.
pub open spec fn identity_m3() -> M3 {
    M3 {
        r0: V3 { x: FX_ONE as int, y: 0, z: 0 },
        r1: V3 { x: 0, y: FX_ONE as int, z: 0 },
        r2: V3 { x: 0, y: 0, z: FX_ONE as int },
    }
}

/// Squared length in raw ticks: the fixed-point `|v|^2` rescaled so that its
/// integer square root is the fixed-point `|v|`.
pub open spec fn norm2_raw_s(v: V3) -> int {
    dot_s(v, v) * (FX_ONE as int)
}

/// The fixed-point length of a vector, as a mathematical value.
pub open spec fn norm_s(v: V3) -> int {
    isqrt_s(norm2_raw_s(v))
}

/// Scaling by a factor of magnitude at most one keeps a magnitude bound.
pub proof fn lemma_scale_by_keeps_bound(v: V3, s: int, bv: int)
    requires
        0 <= bv,
        bounded_s(v, bv),
        -(FX_ONE as int) <= s <= FX_ONE as int,
    ensures
        bounded_s(scale_by_s(v, s), bv),
{
    lemma_abs_mul_le(v.x, s, bv, FX_ONE as int);
    lemma_abs_mul_le(v.y, s, bv, FX_ONE as int);
    lemma_abs_mul_le(v.z, s, bv, FX_ONE as int);
    vstd::arithmetic::mul::lemma_mul_nonnegative(bv, FX_ONE as int);
    lemma_tdiv_bound(v.x * s, FX_ONE as int, bv * (FX_ONE as int));
    lemma_tdiv_bound(v.y * s, FX_ONE as int, bv * (FX_ONE as int));
    lemma_tdiv_bound(v.z * s, FX_ONE as int, bv * (FX_ONE as int));
    vstd::arithmetic::div_mod::lemma_div_by_multiple(bv, FX_ONE as int);
}

/// Applying a rotation-sized matrix (entries within the fixed-point unit)
/// at most triples a componentwise bound.
pub proof fn lemma_rot_apply_bound(m: M3, v: V3, bv: int)
    requires
        0 <= bv,
        mat_bounded_s(m, FX_ONE as int),
        bounded_s(v, bv),
    ensures
        bounded_s(apply_s(m, v), 3 * bv),
{
    lemma_row_dot_bound(m.r0, v, bv);
    lemma_row_dot_bound(m.r1, v, bv);
    lemma_row_dot_bound(m.r2, v, bv);
}

/// A dot product of a unit-bounded row with a `bv`-bounded vector stays
/// within three times `bv`.
pub proof fn lemma_row_dot_bound(row: V3, v: V3, bv: int)
    requires
        0 <= bv,
        bounded_s(row, FX_ONE as int),
        bounded_s(v, bv),
    ensures
        -3 * bv <= dot_s(row, v) <= 3 * bv,
{
    lemma_abs_mul_le(row.x, v.x, FX_ONE as int, bv);
    lemma_abs_mul_le(row.y, v.y, FX_ONE as int, bv);
    lemma_abs_mul_le(row.z, v.z, FX_ONE as int, bv);
    vstd::arithmetic::mul::lemma_mul_nonnegative(FX_ONE as int, bv);
    lemma_tdiv_bound(row.x * v.x, FX_ONE as int, (FX_ONE as int) * bv);
    lemma_tdiv_bound(row.y * v.y, FX_ONE as int, (FX_ONE as int) * bv);
    lemma_tdiv_bound(row.z * v.z, FX_ONE as int, (FX_ONE as int) * bv);
    assert((FX_ONE as int) * bv == bv * (FX_ONE as int)) by (nonlinear_arith);
    vstd::arithmetic::div_mod::lemma_div_by_multiple(bv, FX_ONE as int);
}

impl Vec3 {
    /// The zero vector.
    pub fn zero() -> (r: Vec3)
        ensures
            r@ === (V3 { x: 0, y: 0, z: 0 }),
    {
        Vec3 { x: 0, y: 0, z: 0 }
    }

    pub open spec fn bounded(self, m: int) -> bool {
        bounded_s(self@, m)
    }

    /// Componentwise sum.
    pub fn plus(self, o: Vec3) -> (r: Vec3)
        requires
            self.bounded(0x2000_0000_0000_0000),
            o.bounded(0x2000_0000_0000_0000),
        ensures
            r@ === plus_s(self@, o@),
    {
        Vec3 { x: self.x + o.x, y: self.y + o.y, z: self.z + o.z }
    }

    /// Componentwise difference.
    pub fn minus(self, o: Vec3) -> (r: Vec3)
        requires
            self.bounded(0x2000_0000_0000_0000),
            o.bounded(0x2000_0000_0000_0000),
        ensures
            r@ === minus_s(self@, o@),
    {
        Vec3 { x: self.x - o.x, y: self.y - o.y, z: self.z - o.z }
    }

    /// Componentwise negation.
    pub fn neg(self) -> (r: Vec3)
        requires
            self.bounded(0x2000_0000_0000_0000),
        ensures
            r@ === neg_s(self@),
    {
        Vec3 { x: -self.x, y: -self.y, z: -self.z }
    }

    /// Scaling by a fixed-point factor.
    pub fn scale_by(self, s: i64) -> (r: Vec3)
        requires
            self.bounded(FX_MUL_LIM as int),
            -FX_MUL_LIM <= s <= FX_MUL_LIM,
        ensures
            r@ === scale_by_s(self@, s as int),
            r.bounded(FX_PROD_BOUND as int),
    {
        Vec3 { x: fx_mul(self.x, s), y: fx_mul(self.y, s), z: fx_mul(self.z, s) }
    }

    /// Division by a positive fixed-point factor.
    pub fn div_by(self, s: i64) -> (r: Vec3)
        requires
            self.bounded(FX_MUL_LIM as int),
            0 < s <= FX_MUL_LIM,
        ensures
            r@ === div_by_s(self@, s as int),
            r.bounded(FX_PROD_BOUND as int),
    {
        Vec3 { x: fx_div(self.x, s), y: fx_div(self.y, s), z: fx_div(self.z, s) }
    }

    /// Fixed-point dot product.
    pub fn dot(self, o: Vec3) -> (r: i64)
        requires
            self.bounded(FX_MUL_LIM as int),
            o.bounded(FX_MUL_LIM as int),
        ensures
            r == dot_s(self@, o@),
            -3 * FX_PROD_BOUND <= r <= 3 * FX_PROD_BOUND,
    {
        fx_mul(self.x, o.x) + fx_mul(self.y, o.y) + fx_mul(self.z, o.z)
    }

    /// Fixed-point cross product.
    pub fn cross(self, o: Vec3) -> (r: Vec3)
        requires
            self.bounded(FX_MUL_LIM as int),
            o.bounded(FX_MUL_LIM as int),
        ensures
            r@ === cross_s(self@, o@),
            r.bounded(2 * FX_PROD_BOUND as int),
    {
        Vec3 {
            x: fx_mul(self.y, o.z) - fx_mul(self.z, o.y),
            y: fx_mul(self.z, o.x) - fx_mul(self.x, o.z),
            z: fx_mul(self.x, o.y) - fx_mul(self.y, o.x),
        }
    }

    /// Fixed-point length of a direction-sized vector.
    pub fn norm(self) -> (r: i64)
        requires
            self.bounded(8 * FX_ONE as int),
        ensures
            0 <= r <= 0x1_0000_0000,
            (r as int) * (r as int) <= norm2_raw_s(self@),
            norm2_raw_s(self@) < (r as int + 1) * (r as int + 1),
            r == norm_s(self@),
    {
        proof {
            lemma_sq_fx_bounds(self@.x, 8 * FX_ONE as int);
            lemma_sq_fx_bounds(self@.y, 8 * FX_ONE as int);
            lemma_sq_fx_bounds(self@.z, 8 * FX_ONE as int);
            assert((8 * FX_ONE as int) * (8 * FX_ONE as int) == 274877906944) by (nonlinear_arith);
            assert(274877906944int / (FX_ONE as int) == 4194304);
        }
        let d: i64 = self.dot(self);
        proof {
            assert(0 <= d <= 12582912);
        }
        let raw: u64 = (d as u64) * (FX_ONE as u64);
        let r64: u64 = isqrt(raw);
        proof {
            assert(r64 <= 0x1_0000_0000) by (nonlinear_arith)
                requires
                    (r64 as int) * (r64 as int) <= raw as int,
                    raw <= u64::MAX,
        ;
        }
        r64 as i64
    }
}

impl Mat3 {
    pub open spec fn bounded(self, m: int) -> bool {
        mat_bounded_s(self@, m)
    }

    /// The identity rotation.
    pub fn identity() -> (r: Mat3)
        ensures
            r@ === identity_m3(),
            r.bounded(FX_ONE as int),
    {
        Mat3 {
            r0: Vec3 { x: FX_ONE, y: 0, z: 0 },
            r1: Vec3 { x: 0, y: FX_ONE, z: 0 },
            r2: Vec3 { x: 0, y: 0, z: FX_ONE },
        }
    }

    /// Matrix application to a vector.
    pub fn apply(self, v: Vec3) -> (r: Vec3)
        requires
            self.bounded(FX_MUL_LIM as int),
            v.bounded(FX_MUL_LIM as int),
        ensures
            r@ === apply_s(self@, v@),
            r.bounded(3 * FX_PROD_BOUND as int),
    {
        Vec3 { x: self.r0.dot(v), y: self.r1.dot(v), z: self.r2.dot(v) }
    }

    /// The transpose; for a rotation matrix this is its inverse.
    pub fn transpose(self) -> (r: Mat3)
        ensures
            r@ === transpose_s(self@),
    {
        Mat3 {
            r0: Vec3 { x: self.r0.x, y: self.r1.x, z: self.r2.x },
            r1: Vec3 { x: self.r0.y, y: self.r1.y, z: self.r2.y },
            r2: Vec3 { x: self.r0.z, y: self.r1.z, z: self.r2.z },
        }
    }

    /// The world direction of the local `+z` axis (the camera's forward).
    pub fn forward(self) -> (r: Vec3)
        ensures
            r@ === colz_s(self@),
    {
        Vec3 { x: self.r0.z, y: self.r1.z, z: self.r2.z }
    }

    /// The world direction of the local `+y` axis (the camera's up).
    pub fn upward(self) -> (r: Vec3)
        ensures
            r@ === coly_s(self@),
    {
        Vec3 { x: self.r0.y, y: self.r1.y, z: self.r2.y }
    }
}

impl Pose {
    pub open spec fn bounded(self, pos_lim: int, rot_lim: int) -> bool {
        self.translation.bounded(pos_lim) && self.rotation.bounded(rot_lim)
    }

    /// The pose at the origin with no rotation.
    pub fn identity() -> (r: Pose)
        ensures
            r.translation@ === (V3 { x: 0, y: 0, z: 0 }),
            r.rotation@ === identity_m3(),
    {
        Pose { translation: Vec3::zero(), rotation: Mat3::identity() }
    }
}

} // verus!
