//! 3-component vectors of 16.16 fixed-point scalars: component-wise
//! arithmetic, dot and cross products, magnitude and normalization.

use vstd::prelude::*;
use crate::fx::{
    fx_add, fx_add_s, fx_div, fx_div_s, fx_mul, fx_mul_s, fx_neg, fx_neg_s, fx_sqrt, fx_sqrt_s,
    fx_sub, fx_sub_s, iabs, tdiv,
};

verus! {

#[derive(Clone, Copy, PartialEq, Eq, Structural, Debug)]
pub struct Vec3 {
    pub x: i64,
    pub y: i64,
    pub z: i64,
}

/// Component-wise saturating sum.
pub open spec fn vadd_s(a: Vec3, b: Vec3) -> Vec3 {
    Vec3 {
        x: fx_add_s(a.x as int, b.x as int) as i64,
        y: fx_add_s(a.y as int, b.y as int) as i64,
        z: fx_add_s(a.z as int, b.z as int) as i64,
    }
}

/// Component-wise saturating difference.
pub open spec fn vsub_s(a: Vec3, b: Vec3) -> Vec3 {
    Vec3 {
        x: fx_sub_s(a.x as int, b.x as int) as i64,
        y: fx_sub_s(a.y as int, b.y as int) as i64,
        z: fx_sub_s(a.z as int, b.z as int) as i64,
    }
}

/// Component-wise negation.
pub open spec fn vneg_s(a: Vec3) -> Vec3 {
    Vec3 {
        x: fx_neg_s(a.x as int) as i64,
        y: fx_neg_s(a.y as int) as i64,
        z: fx_neg_s(a.z as int) as i64,
    }
}

/// Every component scaled by the fixed-point factor `s`.
pub open spec fn vscale_s(a: Vec3, s: int) -> Vec3 {
    Vec3 {
        x: fx_mul_s(a.x as int, s) as i64,
        y: fx_mul_s(a.y as int, s) as i64,
        z: fx_mul_s(a.z as int, s) as i64,
    }
}

/// Dot product: the three channel products summed left to right,
/// saturating at every step.
pub open spec fn dot_s(a: Vec3, b: Vec3) -> int {
    fx_add_s(
        fx_add_s(fx_mul_s(a.x as int, b.x as int), fx_mul_s(a.y as int, b.y as int)),
        fx_mul_s(a.z as int, b.z as int),
    )
}

/// Cross product.
pub open spec fn cross_s(a: Vec3, b: Vec3) -> Vec3 {
    Vec3 {
        x: fx_sub_s(fx_mul_s(a.y as int, b.z as int), fx_mul_s(a.z as int, b.y as int)) as i64,
        y: fx_sub_s(fx_mul_s(a.z as int, b.x as int), fx_mul_s(a.x as int, b.z as int)) as i64,
        z: fx_sub_s(fx_mul_s(a.x as int, b.y as int), fx_mul_s(a.y as int, b.x as int)) as i64,
    }
}

/// Magnitude: square root of the self dot product.
pub open spec fn mag_s(a: Vec3) -> int {
    fx_sqrt_s(dot_s(a, a))
}

/// Normalization: each component divided by the magnitude; the zero
/// vector (and any vector whose magnitude rounds to zero) is returned
/// unchanged.
pub open spec fn normalize_s(a: Vec3) -> Vec3 {
    let m = mag_s(a);
    if m == 0 {
        a
    } else {
        Vec3 {
            x: fx_div_s(a.x as int, m) as i64,
            y: fx_div_s(a.y as int, m) as i64,
            z: fx_div_s(a.z as int, m) as i64,
        }
    }
}

/// A fixed-point square is never negative.
pub proof fn lemma_square_nonneg(v: int)
    ensures
        fx_mul_s(v, v) >= 0,
{
    assert(v * v >= 0) by (nonlinear_arith);
    assert(tdiv(v * v, 65536) == iabs(v * v) / 65536);
}

/// The self dot product is never negative, so the magnitude is defined.
pub proof fn lemma_dot_self_nonneg(a: Vec3)
    ensures
        dot_s(a, a) >= 0,
{
    lemma_square_nonneg(a.x as int);
    lemma_square_nonneg(a.y as int);
    lemma_square_nonneg(a.z as int);
}

impl Vec3 {
    /// A vector from its three fixed-point components.
    pub fn new(x: i64, y: i64, z: i64) -> (v: Vec3)
        ensures
            v == (Vec3 { x, y, z }),
    {
        Vec3 { x, y, z }
    }

    /// The zero vector.
    pub fn zero() -> (v: Vec3)
        ensures
            v == (Vec3 { x: 0, y: 0, z: 0 }),
    {
        Vec3 { x: 0, y: 0, z: 0 }
    }

    /// Component-wise saturating sum.
    pub fn add_v(self, other: Vec3) -> (v: Vec3)
        ensures
            v == vadd_s(self, other),
    {
        Vec3 {
            x: fx_add(self.x, other.x),
            y: fx_add(self.y, other.y),
            z: fx_add(self.z, other.z),
        }
    }

    /// Component-wise saturating difference.
    pub fn sub_v(self, other: Vec3) -> (v: Vec3)
        ensures
            v == vsub_s(self, other),
    {
        Vec3 {
            x: fx_sub(self.x, other.x),
            y: fx_sub(self.y, other.y),
            z: fx_sub(self.z, other.z),
        }
    }

    /// Component-wise negation.
    pub fn neg_v(self) -> (v: Vec3)
        ensures
            v == vneg_s(self),
    {
        Vec3 { x: fx_neg(self.x), y: fx_neg(self.y), z: fx_neg(self.z) }
    }

    /// Every component scaled by the fixed-point factor `s`.
    pub fn scale_v(self, s: i64) -> (v: Vec3)
        ensures
            v == vscale_s(self, s as int),
    {
        Vec3 { x: fx_mul(self.x, s), y: fx_mul(self.y, s), z: fx_mul(self.z, s) }
    }

    /// Dot product.
    pub fn dot(self, other: Vec3) -> (r: i64)
        ensures
            r == dot_s(self, other),
    {
        fx_add(
            fx_add(fx_mul(self.x, other.x), fx_mul(self.y, other.y)),
            fx_mul(self.z, other.z),
        )
    }

    /// Cross product.
    pub fn cross(self, other: Vec3) -> (v: Vec3)
        ensures
            v == cross_s(self, other),
    {
        Vec3 {
            x: fx_sub(fx_mul(self.y, other.z), fx_mul(self.z, other.y)),
            y: fx_sub(fx_mul(self.z, other.x), fx_mul(self.x, other.z)),
            z: fx_sub(fx_mul(self.x, other.y), fx_mul(self.y, other.x)),
        }
    }

    /// Magnitude.
    pub fn magnitude(self) -> (r: i64)
        ensures
            r == mag_s(self),
            r >= 0,
    {
        proof {
            lemma_dot_self_nonneg(self);
        }
        fx_sqrt(self.dot(self))
    }

    /// Normalized copy; vectors of magnitude zero come back unchanged.
    pub fn normalize(self) -> (v: Vec3)
        ensures
            v == normalize_s(self),
    {
        let m: i64 = self.magnitude();
        if m == 0 {
            self
        } else {
            Vec3 {
                x: fx_div(self.x, m),
                y: fx_div(self.y, m),
                z: fx_div(self.z, m),
            }
        }
    }
}

} // verus!
