//! The one source of chance of the simulation.

use vstd::prelude::*;
use crate::fixed::{Fixed, fx_add, fx_mul, fx_sub, ONE};

verus! {

/// Draws a whole number from the thread-local generator of the `fastrand`
/// crate by calling `fastrand::u32` with the closed range from `low` to
/// `high`.
///
/// Trusted: the generator returns `low` plus a value below the length of
/// the range, so the draw lies inside the range. Nothing is claimed about
/// which value comes back, and two calls may differ. An empty range makes
/// the generator panic, so callers must not pass one.
#[verifier::external_body]
fn draw_u32(low: u32, high: u32) -> (r: u32)
    requires
        low <= high,
    ensures
        low <= r <= high,
{
    fastrand::u32(low..=high)
}

/// A random whole number from `low` to `high`, both included.
pub fn random_between(low: u32, high: u32) -> (r: u32)
    requires
        low <= high,
    ensures
        low <= r <= high,
{
    draw_u32(low, high)
}

/// Whether `r` can come out of [`random_unit`].
pub open spec fn is_unit_sample(r: Fixed) -> bool {
    0 <= r < ONE
}

/// A random fraction, at least zero and below one.
pub fn random_unit() -> (r: Fixed)
    ensures
        is_unit_sample(r),
{
    draw_u32(0, 999_999) as Fixed
}

/// The value that a unit sample `r` stands for in the span of width `width`
/// centred on zero: `(r - 0.5) * width`.
pub open spec fn centered_spec(r: Fixed, width: Fixed) -> Fixed {
    fx_mul(fx_sub(r, 500_000), width)
}

/// Spreads a unit sample over the span of width `width` centred on zero.
#[verifier::when_used_as_spec(centered_spec)]
pub fn centered(r: Fixed, width: Fixed) -> (out: Fixed)
    ensures
        out == centered_spec(r, width),
{
    fx_mul(fx_sub(r, 500_000), width)
}

/// The value that a unit sample `r` stands for in the span that starts at
/// `base` and is `width` wide: `base + r * width`.
pub open spec fn spread_spec(r: Fixed, base: Fixed, width: Fixed) -> Fixed {
    fx_add(base, fx_mul(r, width))
}

/// Spreads a unit sample over the span that starts at `base` and is
/// `width` wide.
#[verifier::when_used_as_spec(spread_spec)]
pub fn spread(r: Fixed, base: Fixed, width: Fixed) -> (out: Fixed)
    ensures
        out == spread_spec(r, base, width),
{
    fx_add(base, fx_mul(r, width))
}

} // verus!
