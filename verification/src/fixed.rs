//! Saturating fixed-point arithmetic on `i64` millionths.

use vstd::prelude::*;

verus! {

/// Raw units per whole unit: six decimal places.
pub const SCALE: i64 = 1_000_000;

/// Largest magnitude a scalar can take; results beyond it saturate.
pub const LIMIT: i64 = 0x7fff_ffff_ffff_ffff;

/// `v` clamped into `[-LIMIT, LIMIT]`.
pub open spec fn sat(v: int) -> i64 {
    if v > LIMIT {
        LIMIT
    } else if v < -LIMIT {
        (-LIMIT) as i64
    } else {
        v as i64
    }
}

/// Quotient rounded toward zero, for `d != 0`.
pub open spec fn trunc_div(n: int, d: int) -> int {
    if d > 0 {
        if n >= 0 {
            n / d
        } else {
            -((-n) / d)
        }
    } else {
        if n >= 0 {
            -(n / (-d))
        } else {
            (-n) / (-d)
        }
    }
}

/// Sum, saturating.
pub open spec fn spec_fx_add(a: i64, b: i64) -> i64 {
    sat(a + b)
}

/// Difference, saturating.
pub open spec fn spec_fx_sub(a: i64, b: i64) -> i64 {
    sat(a - b)
}

/// Negation, saturating.
pub open spec fn spec_fx_neg(a: i64) -> i64 {
    sat(-a)
}

/// Magnitude, saturating.
pub open spec fn spec_fx_abs(a: i64) -> i64 {
    if a < 0 {
        sat(-a)
    } else {
        a
    }
}

/// The smaller of two scalars.
pub open spec fn spec_fx_min(a: i64, b: i64) -> i64 {
    if b < a {
        b
    } else {
        a
    }
}

/// The larger of two scalars.
pub open spec fn spec_fx_max(a: i64, b: i64) -> i64 {
    if b > a {
        b
    } else {
        a
    }
}

/// Product, rounded toward zero and saturating.
pub open spec fn spec_fx_mul(a: i64, b: i64) -> i64 {
    sat(trunc_div(a * b, SCALE as int))
}

/// Quotient, rounded toward zero and saturating. Division by zero
/// saturates by the sign of the dividend; zero over zero is zero.
pub open spec fn spec_fx_div(a: i64, b: i64) -> i64 {
    if b == 0 {
        if a > 0 {
            LIMIT
        } else if a < 0 {
            (-LIMIT) as i64
        } else {
            0
        }
    } else {
        sat(trunc_div(a * SCALE, b as int))
    }
}

/// Half, rounded toward zero.
pub open spec fn spec_fx_half(a: i64) -> i64 {
    trunc_div(a as int, 2) as i64
}

/// `(a + b) / 2`, rounded toward zero; the sum is exact, so nothing saturates.
pub open spec fn spec_fx_midpoint(a: i64, b: i64) -> i64 {
    trunc_div(a + b, 2) as i64
}

/// `a + (b - a) * t`, each step saturating.
pub open spec fn spec_fx_lerp(a: i64, b: i64, t: i64) -> i64 {
    spec_fx_add(a, spec_fx_mul(spec_fx_sub(b, a), t))
}

/// `v` clamped into the range of a scalar.
fn clamp_wide(v: i128) -> (r: i64)
    ensures
        r == sat(v as int),
{
    if v > LIMIT as i128 {
        LIMIT
    } else if v < -(LIMIT as i128) {
        -LIMIT
    } else {
        v as i64
    }
}

/// `a + b`, saturating.
#[verifier::when_used_as_spec(spec_fx_add)]
pub fn fx_add(a: i64, b: i64) -> (r: i64)
    ensures
        r == spec_fx_add(a, b),
{
    clamp_wide(a as i128 + b as i128)
}

/// `a - b`, saturating.
#[verifier::when_used_as_spec(spec_fx_sub)]
pub fn fx_sub(a: i64, b: i64) -> (r: i64)
    ensures
        r == spec_fx_sub(a, b),
{
    clamp_wide(a as i128 - b as i128)
}

/// `-a`, saturating.
#[verifier::when_used_as_spec(spec_fx_neg)]
pub fn fx_neg(a: i64) -> (r: i64)
    ensures
        r == spec_fx_neg(a),
{
    clamp_wide(-(a as i128))
}

/// `|a|`, saturating.
#[verifier::when_used_as_spec(spec_fx_abs)]
pub fn fx_abs(a: i64) -> (r: i64)
    ensures
        r == spec_fx_abs(a),
{
    if a < 0 {
        clamp_wide(-(a as i128))
    } else {
        a
    }
}

/// The smaller of `a` and `b`.
#[verifier::when_used_as_spec(spec_fx_min)]
pub fn fx_min(a: i64, b: i64) -> (r: i64)
    ensures
        r == spec_fx_min(a, b),
{
    if b < a {
        b
    } else {
        a
    }
}

/// The larger of `a` and `b`.
#[verifier::when_used_as_spec(spec_fx_max)]
pub fn fx_max(a: i64, b: i64) -> (r: i64)
    ensures
        r == spec_fx_max(a, b),
{
    if b > a {
        b
    } else {
        a
    }
}

/// The exact product of two `i64` fits an `i128`.
pub proof fn lemma_product_fits(a: i64, b: i64)
    ensures
        -0x4000_0000_0000_0000_0000_0000_0000_0000 <= a * b
            <= 0x4000_0000_0000_0000_0000_0000_0000_0000,
{
    assert(-0x4000_0000_0000_0000_0000_0000_0000_0000 <= a * b
        <= 0x4000_0000_0000_0000_0000_0000_0000_0000) by (nonlinear_arith)
        requires
            -0x8000_0000_0000_0000 <= a <= 0x8000_0000_0000_0000,
            -0x8000_0000_0000_0000 <= b <= 0x8000_0000_0000_0000,
    ;
}

/// Product of two `i64`, with the scale divided out, rounded toward zero.
pub fn scaled_product(a: i64, b: i64) -> (q: i128)
    ensures
        q == trunc_div(a * b, SCALE as int),
        -0x4000_0000_0000_0000_0000_0000_0000 <= q <= 0x4000_0000_0000_0000_0000_0000_0000,
{
    proof {
        lemma_product_fits(a, b);
    }
    let wide: i128 = (a as i128) * (b as i128);
    wide / (SCALE as i128)
}

/// `a * b`, rounded toward zero and saturating.
#[verifier::when_used_as_spec(spec_fx_mul)]
pub fn fx_mul(a: i64, b: i64) -> (r: i64)
    ensures
        r == spec_fx_mul(a, b),
{
    clamp_wide(scaled_product(a, b))
}

/// `a / b`, rounded toward zero and saturating; see [`spec_fx_div`] for a zero divisor.
#[verifier::when_used_as_spec(spec_fx_div)]
pub fn fx_div(a: i64, b: i64) -> (r: i64)
    ensures
        r == spec_fx_div(a, b),
{
    if b == 0 {
        if a > 0 {
            LIMIT
        } else if a < 0 {
            -LIMIT
        } else {
            0
        }
    } else {
        assert(a * SCALE == a * 1_000_000);
        let n: i128 = (a as i128) * 1_000_000;
        let d: i128 = b as i128;
        if d > 0 {
            clamp_wide(n / d)
        } else {
            clamp_wide((-n) / (-d))
        }
    }
}

/// `a / 2`, rounded toward zero.
#[verifier::when_used_as_spec(spec_fx_half)]
pub fn fx_half(a: i64) -> (r: i64)
    ensures
        r == spec_fx_half(a),
{
    a / 2
}

/// The midpoint of `a` and `b`, rounded toward zero; it lies between them.
#[verifier::when_used_as_spec(spec_fx_midpoint)]
pub fn fx_midpoint(a: i64, b: i64) -> (r: i64)
    ensures
        r == spec_fx_midpoint(a, b),
        a <= b ==> a <= r <= b,
        b <= a ==> b <= r <= a,
{
    ((a as i128 + b as i128) / 2) as i64
}

/// The scalar `t` of the way from `a` to `b`.
#[verifier::when_used_as_spec(spec_fx_lerp)]
pub fn fx_lerp(a: i64, b: i64, t: i64) -> (r: i64)
    ensures
        r == spec_fx_lerp(a, b, t),
{
    fx_add(a, fx_mul(fx_sub(b, a), t))
}

/// Integer square root: the largest `r` with `r * r <= n`.
pub open spec fn isqrt(n: nat) -> nat
    decreases n,
{
    if n == 0 {
        0
    } else {
        let r = isqrt((n - 1) as nat);
        if (r + 1) * (r + 1) <= n {
            r + 1
        } else {
            r
        }
    }
}

/// `isqrt(n)` squared is at most `n`, and the next square is above it.
pub proof fn lemma_isqrt_bounds(n: nat)
    ensures
        isqrt(n) * isqrt(n) <= n < (isqrt(n) + 1) * (isqrt(n) + 1),
    decreases n,
{
    if n > 0 {
        lemma_isqrt_bounds((n - 1) as nat);
        let r = isqrt((n - 1) as nat);
        if (r + 1) * (r + 1) <= n {
            let s = r + 1;
            assert(isqrt(n) == s);
            assert(s * s == n);
            assert(s * s < (s + 1) * (s + 1)) by (nonlinear_arith);
        } else {
            assert(isqrt(n) == r);
        }
    } else {
        assert(isqrt(n) == 0);
        assert(0 * 0 == 0 && (0 + 1) * (0 + 1) == 1) by (nonlinear_arith);
    }
}

/// Only one number has its square at or below `n` and the next square above.
pub proof fn lemma_isqrt_unique(n: nat, r: nat)
    requires
        r * r <= n < (r + 1) * (r + 1),
    ensures
        r == isqrt(n),
{
    lemma_isqrt_bounds(n);
    let s = isqrt(n);
    if r < s {
        assert((r + 1) * (r + 1) <= s * s) by (nonlinear_arith)
            requires
                r + 1 <= s,
        ;
    } else if s < r {
        assert((s + 1) * (s + 1) <= r * r) by (nonlinear_arith)
            requires
                s + 1 <= r,
        ;
    }
}

/// Square root of a 128-bit number, rounded down.
pub fn isqrt_u128(n: u128) -> (r: u64)
    ensures
        r == isqrt(n as nat),
{
    let mut lo: u128 = 0;
    let mut hi: u128 = 0x1_0000_0000_0000_0000;
    assert(0x1_0000_0000_0000_0000 * 0x1_0000_0000_0000_0000 > n) by (nonlinear_arith)
        requires
            n <= 0xffff_ffff_ffff_ffff_ffff_ffff_ffff_ffff,
    ;
    while hi - lo > 1
        invariant
            lo < hi <= 0x1_0000_0000_0000_0000,
            lo * lo <= n < hi * hi,
        decreases hi - lo,
    {
        let mid: u128 = lo + (hi - lo) / 2;
        assert(mid * mid <= 0xffff_ffff_ffff_ffff * 0xffff_ffff_ffff_ffff) by (nonlinear_arith)
            requires
                0 <= mid <= 0xffff_ffff_ffff_ffff,
        ;
        if mid * mid <= n {
            lo = mid;
        } else {
            hi = mid;
        }
    }
    proof {
        assert(hi == lo + 1);
        lemma_isqrt_unique(n as nat, lo as nat);
    }
    lo as u64
}

/// Rounding toward zero keeps the order of the dividends.
pub proof fn lemma_trunc_div_monotone(n1: int, n2: int, d: int)
    requires
        d > 0,
        n1 <= n2,
    ensures
        trunc_div(n1, d) <= trunc_div(n2, d),
{
    if n1 >= 0 {
        vstd::arithmetic::div_mod::lemma_div_is_ordered(n1, n2, d);
    } else if n2 >= 0 {
        vstd::arithmetic::div_mod::lemma_div_is_ordered(0, -n1, d);
        vstd::arithmetic::div_mod::lemma_div_is_ordered(0, n2, d);
    } else {
        vstd::arithmetic::div_mod::lemma_div_is_ordered(-n2, -n1, d);
    }
}

/// Multiplying by one changes nothing but what [`sat`] does.
pub proof fn lemma_fx_mul_by_one(a: i64)
    ensures
        fx_mul(a, SCALE) == sat(a as int),
{
    assert(a * SCALE == a * 1_000_000);
}

/// A product grows with its second factor where the first is not
/// negative, and shrinks with it where the first is not positive.
pub proof fn lemma_fx_mul_monotone(a: i64, t1: i64, t2: i64)
    requires
        t1 <= t2,
    ensures
        a >= 0 ==> fx_mul(a, t1) <= fx_mul(a, t2),
        a <= 0 ==> fx_mul(a, t1) >= fx_mul(a, t2),
{
    if a >= 0 {
        vstd::arithmetic::mul::lemma_mul_inequality(t1 as int, t2 as int, a as int);
        vstd::arithmetic::mul::lemma_mul_is_commutative(a as int, t1 as int);
        vstd::arithmetic::mul::lemma_mul_is_commutative(a as int, t2 as int);
        lemma_trunc_div_monotone(a * t1, a * t2, SCALE as int);
    }
    if a <= 0 {
        vstd::arithmetic::mul::lemma_mul_inequality(t1 as int, t2 as int, -a);
        vstd::arithmetic::mul::lemma_mul_is_commutative(-a, t1 as int);
        vstd::arithmetic::mul::lemma_mul_is_commutative(-a, t2 as int);
        assert((-a) * t1 == -(a * t1)) by (nonlinear_arith);
        assert((-a) * t2 == -(a * t2)) by (nonlinear_arith);
        lemma_trunc_div_monotone(a * t2, a * t1, SCALE as int);
    }
}

/// A product grows with its first factor where the second is not negative.
pub proof fn lemma_fx_mul_monotone_left(a1: i64, a2: i64, t: i64)
    requires
        a1 <= a2,
        t >= 0,
    ensures
        fx_mul(a1, t) <= fx_mul(a2, t),
{
    vstd::arithmetic::mul::lemma_mul_inequality(a1 as int, a2 as int, t as int);
    lemma_trunc_div_monotone(a1 * t, a2 * t, SCALE as int);
}

/// A quotient grows with its dividend where the divisor is not negative.
pub proof fn lemma_fx_div_monotone(a1: i64, a2: i64, d: i64)
    requires
        a1 <= a2,
        d >= 0,
    ensures
        fx_div(a1, d) <= fx_div(a2, d),
{
    if d > 0 {
        assert(a1 * SCALE == a1 * 1_000_000);
        assert(a2 * SCALE == a2 * 1_000_000);
        lemma_trunc_div_monotone(a1 * SCALE, a2 * SCALE, d as int);
    }
}

/// A quotient of a dividend that is not negative shrinks as a positive divisor grows.
pub proof fn lemma_fx_div_antitone(a: i64, d1: i64, d2: i64)
    requires
        a >= 0,
        0 < d1 <= d2,
    ensures
        fx_div(a, d1) >= fx_div(a, d2) >= 0,
{
    assert(a * SCALE == a * 1_000_000);
    vstd::arithmetic::div_mod::lemma_div_is_ordered_by_denominator(
        a * SCALE,
        d1 as int,
        d2 as int,
    );
    vstd::arithmetic::div_mod::lemma_div_is_ordered(0, a * SCALE, d2 as int);
}

/// A quotient by a positive divisor reaches one exactly when the dividend
/// reaches the divisor.
pub proof fn lemma_fx_div_reaches_one(a: i64, d: i64)
    requires
        d > 0,
    ensures
        fx_div(a, d) >= SCALE <==> a >= d,
{
    assert(a * SCALE == a * 1_000_000);
    if a >= d {
        vstd::arithmetic::div_mod::lemma_div_multiples_vanish(SCALE as int, d as int);
        assert(d * SCALE == d * 1_000_000);
        vstd::arithmetic::div_mod::lemma_div_is_ordered(d * SCALE, a * SCALE, d as int);
    } else if a >= 0 {
        assert(a * SCALE < d * SCALE) by {
            assert(d * SCALE == d * 1_000_000);
        }
        vstd::arithmetic::div_mod::lemma_multiply_divide_lt(a * SCALE, d as int, SCALE as int);
    } else {
        vstd::arithmetic::div_mod::lemma_div_is_ordered(0, -(a * SCALE), d as int);
    }
}

} // verus!
