//! Fixed-point arithmetic for the simulation core.
//!
//! Every real-valued quantity of the simulation (seconds, world units,
//! colour channels, ratios) is a [`Fixed`]: a signed count of millionths.
//! The raw integer `1_000_000` stands for `1.0`. All operations round
//! toward negative infinity and saturate at the bounds of the raw integer
//! instead of overflowing, so every function in this module is total.

use vstd::prelude::*;
use vstd::arithmetic::div_mod::{
    lemma_fundamental_div_mod, lemma_fundamental_div_mod_converse, lemma_mod_bound,
};

verus! {

/// A real number stored as a signed count of millionths.
pub type Fixed = i64;

/// The raw value that stands for `1.0`.
pub const ONE: Fixed = 1_000_000;

/// The raw value that stands for `0.5`.
pub const HALF: Fixed = 500_000;

/// The nearest representable raw value to the mathematical integer `x`.
pub open spec fn saturate(x: int) -> Fixed {
    if x < i64::MIN as int {
        i64::MIN
    } else if x > i64::MAX as int {
        i64::MAX
    } else {
        x as i64
    }
}

/// `a + b`, saturating.
pub open spec fn fx_add_spec(a: Fixed, b: Fixed) -> Fixed {
    saturate(a + b)
}

/// `a - b`, saturating.
pub open spec fn fx_sub_spec(a: Fixed, b: Fixed) -> Fixed {
    saturate(a - b)
}

/// `-a`, saturating.
pub open spec fn fx_neg_spec(a: Fixed) -> Fixed {
    saturate(-a)
}

/// `|a|`, saturating.
pub open spec fn fx_abs_spec(a: Fixed) -> Fixed {
    if a >= 0 { a } else { saturate(-a) }
}

/// The smaller of two values.
pub open spec fn fx_min_spec(a: Fixed, b: Fixed) -> Fixed {
    if a <= b { a } else { b }
}

/// The larger of two values.
pub open spec fn fx_max_spec(a: Fixed, b: Fixed) -> Fixed {
    if a >= b { a } else { b }
}

/// `x` limited to the interval `[lo, hi]`. For an empty interval
/// (`lo > hi`) the result is `lo` below `lo` and `hi` from there on.
pub open spec fn fx_clamp_spec(x: Fixed, lo: Fixed, hi: Fixed) -> Fixed {
    if x < lo { lo } else if x > hi { hi } else { x }
}

/// The floor of `n / d` for a divisor of either sign, and `0` for `d == 0`.
pub open spec fn floor_ratio(n: int, d: int) -> int {
    if d == 0 {
        0
    } else if d > 0 {
        n / d
    } else {
        (-n) / (-d)
    }
}

/// The floor of the raw product `a * b` over the raw divisor `d`,
/// saturating; `0` when `d == 0`.
pub open spec fn fx_mul_div_spec(a: Fixed, b: Fixed, d: Fixed) -> Fixed {
    saturate(floor_ratio(a * b, d as int))
}

/// The product of two fixed-point numbers.
pub open spec fn fx_mul_spec(a: Fixed, b: Fixed) -> Fixed {
    fx_mul_div_spec(a, b, ONE)
}

/// The quotient of two fixed-point numbers; `0` when `b == 0`.
pub open spec fn fx_div_spec(a: Fixed, b: Fixed) -> Fixed {
    fx_mul_div_spec(a, ONE, b)
}

/// `a + (b - a) * t`: the point a fraction `t` of the way from `a` to `b`.
pub open spec fn fx_lerp_spec(a: Fixed, b: Fixed, t: Fixed) -> Fixed {
    fx_add_spec(a, fx_mul_spec(fx_sub_spec(b, a), t))
}

/// The fixed-point number equal to the whole number `n`.
pub open spec fn from_int_spec(n: i64) -> Fixed {
    saturate(n * ONE)
}

/// Rounds a wide intermediate result to the nearest representable value.
fn saturate_wide(x: i128) -> (r: Fixed)
    ensures
        r == saturate(x as int),
{
    if x < i64::MIN as i128 {
        i64::MIN
    } else if x > i64::MAX as i128 {
        i64::MAX
    } else {
        x as i64
    }
}

/// Floor division of a wide dividend by a positive divisor.
fn floor_div_wide(n: i128, d: i128) -> (q: i128)
    requires
        d > 0,
        n > i128::MIN,
    ensures
        q == n as int / d as int,
{
    let t: i128 = n / d;
    let m: i128 = n % d;
    proof {
        if n < 0 {
            // The machine truncates toward zero: t and m are the negated
            // quotient and remainder of the magnitude.
            let a: int = -n;
            let qa: int = a / (d as int);
            let ra: int = a % (d as int);
            lemma_fundamental_div_mod(a, d as int);
            lemma_mod_bound(a, d as int);
            assert(t == -qa);
            assert(m == -ra);
            if ra == 0 {
                assert(n == (-qa) * d + 0) by (nonlinear_arith)
                    requires
                        -n == d * qa + ra,
                        ra == 0,
                ;
                lemma_fundamental_div_mod_converse(n as int, d as int, -qa, 0);
            } else {
                assert(n == (-qa - 1) * d + (d - ra)) by (nonlinear_arith)
                    requires
                        -n == d * qa + ra,
                ;
                lemma_fundamental_div_mod_converse(n as int, d as int, -qa - 1, d - ra);
            }
        }
    }
    if m < 0 {
        t - 1
    } else {
        t
    }
}

/// `a + b`, saturating at the bounds of [`Fixed`].
#[verifier::when_used_as_spec(fx_add_spec)]
pub fn fx_add(a: Fixed, b: Fixed) -> (r: Fixed)
    ensures
        r == fx_add_spec(a, b),
{
    saturate_wide(a as i128 + b as i128)
}

/// `a - b`, saturating at the bounds of [`Fixed`].
#[verifier::when_used_as_spec(fx_sub_spec)]
pub fn fx_sub(a: Fixed, b: Fixed) -> (r: Fixed)
    ensures
        r == fx_sub_spec(a, b),
{
    saturate_wide(a as i128 - b as i128)
}

/// `-a`, saturating at the bounds of [`Fixed`].
#[verifier::when_used_as_spec(fx_neg_spec)]
pub fn fx_neg(a: Fixed) -> (r: Fixed)
    ensures
        r == fx_neg_spec(a),
{
    saturate_wide(-(a as i128))
}

/// `|a|`, saturating at the bounds of [`Fixed`].
#[verifier::when_used_as_spec(fx_abs_spec)]
pub fn fx_abs(a: Fixed) -> (r: Fixed)
    ensures
        r == fx_abs_spec(a),
        r >= 0,
{
    if a >= 0 {
        a
    } else {
        saturate_wide(-(a as i128))
    }
}

/// The smaller of two values.
#[verifier::when_used_as_spec(fx_min_spec)]
pub fn fx_min(a: Fixed, b: Fixed) -> (r: Fixed)
    ensures
        r == fx_min_spec(a, b),
{
    if a <= b { a } else { b }
}

/// The larger of two values.
#[verifier::when_used_as_spec(fx_max_spec)]
pub fn fx_max(a: Fixed, b: Fixed) -> (r: Fixed)
    ensures
        r == fx_max_spec(a, b),
{
    if a >= b { a } else { b }
}

/// `x` limited to the interval `[lo, hi]`.
#[verifier::when_used_as_spec(fx_clamp_spec)]
pub fn fx_clamp(x: Fixed, lo: Fixed, hi: Fixed) -> (r: Fixed)
    ensures
        r == fx_clamp_spec(x, lo, hi),
        lo <= hi ==> (lo <= r && r <= hi),
{
    if x < lo { lo } else if x > hi { hi } else { x }
}

/// The floor of `a * b / d`, computed without intermediate overflow and
/// saturating at the bounds of [`Fixed`]. A zero divisor gives `0`.
#[verifier::when_used_as_spec(fx_mul_div_spec)]
pub fn fx_mul_div(a: Fixed, b: Fixed, d: Fixed) -> (r: Fixed)
    ensures
        r == fx_mul_div_spec(a, b, d),
{
    if d == 0 {
        return 0;
    }
    assert(-0x4000_0000_0000_0000_0000_0000_0000_0000 <= a * b
        <= 0x4000_0000_0000_0000_0000_0000_0000_0000) by (nonlinear_arith)
        requires
            -0x8000_0000_0000_0000 <= a <= 0x7fff_ffff_ffff_ffff,
            -0x8000_0000_0000_0000 <= b <= 0x7fff_ffff_ffff_ffff,
    ;
    let p: i128 = (a as i128) * (b as i128);
    let q: i128 = if d > 0 {
        floor_div_wide(p, d as i128)
    } else {
        floor_div_wide(-p, -(d as i128))
    };
    saturate_wide(q)
}

/// The product of two fixed-point numbers, rounded down.
#[verifier::when_used_as_spec(fx_mul_spec)]
pub fn fx_mul(a: Fixed, b: Fixed) -> (r: Fixed)
    ensures
        r == fx_mul_spec(a, b),
{
    fx_mul_div(a, b, ONE)
}

/// The quotient of two fixed-point numbers, rounded down; `0` when the
/// divisor is zero.
#[verifier::when_used_as_spec(fx_div_spec)]
pub fn fx_div(a: Fixed, b: Fixed) -> (r: Fixed)
    ensures
        r == fx_div_spec(a, b),
{
    fx_mul_div(a, ONE, b)
}

/// Linear interpolation from `a` (at `t == 0`) to `b` (at `t == ONE`).
/// The factor is not clamped.
#[verifier::when_used_as_spec(fx_lerp_spec)]
pub fn fx_lerp(a: Fixed, b: Fixed, t: Fixed) -> (r: Fixed)
    ensures
        r == fx_lerp_spec(a, b, t),
{
    fx_add(a, fx_mul(fx_sub(b, a), t))
}

/// The fixed-point number equal to the whole number `n`.
#[verifier::when_used_as_spec(from_int_spec)]
pub fn from_int(n: i64) -> (r: Fixed)
    ensures
        r == from_int_spec(n),
{
    saturate_wide(n as i128 * 1_000_000)
}

/// The remainder of `a` over a positive `b`, with the sign of `a`; `a`
/// itself when `b` is not positive.
pub open spec fn fx_rem_spec(a: Fixed, b: Fixed) -> Fixed {
    if b <= 0 {
        a
    } else if a >= 0 {
        (a % b) as Fixed
    } else {
        (-((-a) % (b as int))) as Fixed
    }
}

/// The remainder of `a` over a positive `b`. It has the sign of `a` and a
/// magnitude below `b`.
#[verifier::when_used_as_spec(fx_rem_spec)]
pub fn fx_rem(a: Fixed, b: Fixed) -> (r: Fixed)
    ensures
        r == fx_rem_spec(a, b),
        b > 0 ==> -b < r < b,
{
    if b <= 0 {
        a
    } else {
        proof {
            if a >= 0 {
                lemma_mod_bound(a as int, b as int);
            } else {
                lemma_mod_bound(-a, b as int);
            }
        }
        a % b
    }
}

/// Scaling a non-negative value by a factor between zero and one gives a
/// value between zero and that value.
pub proof fn lemma_mul_by_fraction(a: Fixed, t: Fixed)
    requires
        0 <= a,
        0 <= t <= ONE,
    ensures
        0 <= fx_mul(a, t) <= a,
{
    assert(0 <= a * t <= a * 1_000_000) by (nonlinear_arith)
        requires
            0 <= a,
            0 <= t <= 1_000_000,
    ;
    assert((a * 1_000_000) / 1_000_000 == a);
    assert((a * t) / 1_000_000 <= (a * 1_000_000) / 1_000_000);
}

/// Whether `r` is the square root of `n` rounded down.
pub open spec fn is_floor_sqrt(n: nat, r: nat) -> bool {
    r * r <= n < (r + 1) * (r + 1)
}

/// The integer square root: the one `r` with `r * r <= n < (r + 1) * (r + 1)`.
pub open spec fn isqrt_spec(n: nat) -> nat {
    choose|r: nat| is_floor_sqrt(n, r)
}

/// Squaring is strictly increasing on the naturals, so at most one `r`
/// brackets `n` between `r * r` and `(r + 1) * (r + 1)`: any such `r` is
/// the integer square root.
pub proof fn lemma_isqrt_unique(n: nat, r: nat)
    requires
        r * r <= n < (r + 1) * (r + 1),
    ensures
        isqrt_spec(n) == r,
{
    let s = isqrt_spec(n);
    assert(is_floor_sqrt(n, r));
    assert(is_floor_sqrt(n, s));
    assert(s == r) by (nonlinear_arith)
        requires
            r * r <= n < (r + 1) * (r + 1),
            s * s <= n < (s + 1) * (s + 1),
    ;
}

/// The integer square root of `n`, rounded down.
pub fn isqrt(n: u128) -> (r: u64)
    ensures
        r == isqrt_spec(n as nat),
        r * r <= n < (r + 1) * (r + 1),
{
    let mut lo: u128 = 0;
    let mut hi: u128 = 0x1_0000_0000_0000_0000;
    assert(hi * hi > n) by (nonlinear_arith)
        requires
            hi == 0x1_0000_0000_0000_0000,
            n <= 0xffff_ffff_ffff_ffff_ffff_ffff_ffff_ffff,
    ;
    while hi - lo > 1
        invariant
            lo < hi <= 0x1_0000_0000_0000_0000,
            lo * lo <= n < hi * hi,
        decreases hi - lo,
    {
        let mid: u128 = lo + (hi - lo) / 2;
        assert(mid * mid <= 0xffff_ffff_ffff_ffff_ffff_ffff_ffff_ffff) by (nonlinear_arith)
            requires
                0 <= mid <= 0xffff_ffff_ffff_ffff,
        ;
        if mid * mid <= n {
            lo = mid;
        } else {
            hi = mid;
        }
    }
    proof {
        assert(hi == lo + 1);
        lemma_isqrt_unique(n as nat, lo as nat);
    }
    lo as u64
}

/// The Euclidean length of the vector `(x, y)`, rounded down and saturating.
pub open spec fn hypot_spec(x: Fixed, y: Fixed) -> Fixed {
    saturate(isqrt_spec((x * x + y * y) as nat) as int)
}

/// The Euclidean length of the vector `(x, y)`, rounded down.
#[verifier::when_used_as_spec(hypot_spec)]
pub fn hypot(x: Fixed, y: Fixed) -> (r: Fixed)
    ensures
        r == hypot_spec(x, y),
        r >= 0,
{
    assert(0 <= x * x <= 0x4000_0000_0000_0000_0000_0000_0000_0000) by (nonlinear_arith)
        requires
            -0x8000_0000_0000_0000 <= x <= 0x7fff_ffff_ffff_ffff,
    ;
    assert(0 <= y * y <= 0x4000_0000_0000_0000_0000_0000_0000_0000) by (nonlinear_arith)
        requires
            -0x8000_0000_0000_0000 <= y <= 0x7fff_ffff_ffff_ffff,
    ;
    let xx: i128 = (x as i128) * (x as i128);
    let yy: i128 = (y as i128) * (y as i128);
    let sum: u128 = (xx as u128) + (yy as u128);
    let root: u64 = isqrt(sum);
    if root > i64::MAX as u64 {
        i64::MAX
    } else {
        root as i64
    }
}

} // verus!
