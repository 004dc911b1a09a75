//! Three-component vectors of fixed-point scalars.

use vstd::prelude::*;
use crate::fixed::{fx_add, fx_lerp, fx_mul, fx_sub, isqrt, isqrt_u128, sat, scaled_product, trunc_div, LIMIT, SCALE};

verus! {

/// A point or direction in world space.
#[derive(Clone, Copy, Debug, PartialEq, Eq, Structural)]
pub struct Vec3 {
    pub x: i64,
    pub y: i64,
    pub z: i64,
}

/// Sum of the squares of three scalars, in squared raw units.
pub open spec fn sum_squares(x: i64, y: i64, z: i64) -> nat {
    (x * x + y * y + z * z) as nat
}

/// `|a|`, exact.
fn magnitude(a: i64) -> (r: u128)
    ensures
        r == if a < 0 { -a } else { a as int },
        r <= 0x8000_0000_0000_0000,
{
    if a < 0 {
        (-(a as i128)) as u128
    } else {
        a as u128
    }
}

/// `a * a`, exact.
fn square(a: i64) -> (r: u128)
    ensures
        r == a * a,
        r <= 0x4000_0000_0000_0000_0000_0000_0000_0000,
{
    let m = magnitude(a);
    assert(m * m == a * a && m * m <= 0x4000_0000_0000_0000_0000_0000_0000_0000)
        by (nonlinear_arith)
        requires
            m == a || m == -a,
            0 <= m <= 0x8000_0000_0000_0000,
    ;
    m * m
}

impl Vec3 {
    /// Component-wise sum.
    pub open spec fn spec_plus(self, o: Vec3) -> Vec3 {
        Vec3 { x: fx_add(self.x, o.x), y: fx_add(self.y, o.y), z: fx_add(self.z, o.z) }
    }

    /// Component-wise difference.
    pub open spec fn spec_minus(self, o: Vec3) -> Vec3 {
        Vec3 { x: fx_sub(self.x, o.x), y: fx_sub(self.y, o.y), z: fx_sub(self.z, o.z) }
    }

    /// Each component multiplied by `k`.
    pub open spec fn spec_scaled(self, k: i64) -> Vec3 {
        Vec3 { x: fx_mul(self.x, k), y: fx_mul(self.y, k), z: fx_mul(self.z, k) }
    }

    /// The three scaled products are summed exactly and saturated once.
    pub open spec fn spec_dot(self, o: Vec3) -> i64 {
        sat(
            trunc_div(self.x * o.x, SCALE as int) + trunc_div(self.y * o.y, SCALE as int)
                + trunc_div(self.z * o.z, SCALE as int),
        )
    }

    /// Euclidean norm, rounded down to a raw unit.
    pub open spec fn spec_length(self) -> i64 {
        sat(isqrt(sum_squares(self.x, self.y, self.z)) as int)
    }

    /// Length of the difference.
    pub open spec fn spec_distance(self, o: Vec3) -> i64 {
        self.spec_minus(o).spec_length()
    }

    /// The point `t` of the way from `self` to `o`, component by component.
    pub open spec fn spec_lerp(self, o: Vec3, t: i64) -> Vec3 {
        Vec3 { x: fx_lerp(self.x, o.x, t), y: fx_lerp(self.y, o.y, t), z: fx_lerp(self.z, o.z, t) }
    }

    /// The vector with the given components.
    pub fn new(x: i64, y: i64, z: i64) -> (v: Vec3)
        ensures
            v == (Vec3 { x, y, z }),
    {
        Vec3 { x, y, z }
    }

    /// The origin.
    pub fn zero() -> (v: Vec3)
        ensures
            v == (Vec3 { x: 0, y: 0, z: 0 }),
    {
        Vec3 { x: 0, y: 0, z: 0 }
    }

    /// `self + o`.
    #[verifier::when_used_as_spec(spec_plus)]
    pub fn plus(self, o: Vec3) -> (v: Vec3)
        ensures
            v == self.spec_plus(o),
    {
        Vec3 { x: fx_add(self.x, o.x), y: fx_add(self.y, o.y), z: fx_add(self.z, o.z) }
    }

    /// `self - o`.
    #[verifier::when_used_as_spec(spec_minus)]
    pub fn minus(self, o: Vec3) -> (v: Vec3)
        ensures
            v == self.spec_minus(o),
    {
        Vec3 { x: fx_sub(self.x, o.x), y: fx_sub(self.y, o.y), z: fx_sub(self.z, o.z) }
    }

    /// `self * k`.
    #[verifier::when_used_as_spec(spec_scaled)]
    pub fn scaled(self, k: i64) -> (v: Vec3)
        ensures
            v == self.spec_scaled(k),
    {
        Vec3 { x: fx_mul(self.x, k), y: fx_mul(self.y, k), z: fx_mul(self.z, k) }
    }

    /// The dot product of `self` and `o`.
    #[verifier::when_used_as_spec(spec_dot)]
    pub fn dot(self, o: Vec3) -> (r: i64)
        ensures
            r == self.spec_dot(o),
    {
        let px = scaled_product(self.x, o.x);
        let py = scaled_product(self.y, o.y);
        let pz = scaled_product(self.z, o.z);
        let total: i128 = px + py + pz;
        if total > LIMIT as i128 {
            LIMIT
        } else if total < -(LIMIT as i128) {
            -LIMIT
        } else {
            total as i64
        }
    }

    /// The length of `self`.
    #[verifier::when_used_as_spec(spec_length)]
    pub fn length(self) -> (r: i64)
        ensures
            r == self.spec_length(),
    {
        let total: u128 = square(self.x) + square(self.y) + square(self.z);
        let root = isqrt_u128(total);
        if root > LIMIT as u64 {
            LIMIT
        } else {
            root as i64
        }
    }

    /// The distance between `self` and `o`.
    #[verifier::when_used_as_spec(spec_distance)]
    pub fn distance(self, o: Vec3) -> (r: i64)
        ensures
            r == self.spec_distance(o),
    {
        self.minus(o).length()
    }

    /// The point `t` of the way from `self` to `o`.
    #[verifier::when_used_as_spec(spec_lerp)]
    pub fn lerp(self, o: Vec3, t: i64) -> (v: Vec3)
        ensures
            v == self.spec_lerp(o, t),
    {
        Vec3 { x: fx_lerp(self.x, o.x, t), y: fx_lerp(self.y, o.y, t), z: fx_lerp(self.z, o.z, t) }
    }
}

} // verus!
