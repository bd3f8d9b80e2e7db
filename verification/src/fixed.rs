//! Fixed-point scalars.
//!
//! Every length, angle and factor in this crate is an `i64` that counts
//! millionths of its unit: `1_000_000` is one world unit, one radian, one
//! pixel or the factor one, depending on the quantity. All arithmetic is
//! carried out exactly in a wider type and only then brought back into the
//! `i64` range, so no operation here can overflow.
use vstd::prelude::*;

verus! {

/// Raw units per whole unit.
pub const SCALE: i64 = 1_000_000;

/// The nearest `i64` to `x`.
pub open spec fn saturate(x: int) -> int {
    if x < i64::MIN as int {
        i64::MIN as int
    } else if x > i64::MAX as int {
        i64::MAX as int
    } else {
        x
    }
}

/// Quotient of `n` by a positive `d`, rounded toward zero.
pub open spec fn trunc_div(n: int, d: int) -> int
    recommends
        d > 0,
{
    if n >= 0 {
        n / d
    } else {
        -((-n) / d)
    }
}

/// Product of two fixed-point scalars, as a fixed-point scalar rounded
/// toward zero.
pub open spec fn scaled(a: int, b: int) -> int {
    trunc_div(a * b, SCALE as int)
}

/// `x` brought into `[lo, hi]`. Where the interval is empty (`hi < lo`) the
/// lower end wins, so the result is never below `lo`.
pub open spec fn clamp_between(x: int, lo: int, hi: int) -> int {
    let capped = if x > hi { hi } else { x };
    if capped < lo {
        lo
    } else {
        capped
    }
}

/// Brings a wide intermediate result back into the `i64` range.
pub fn narrow(x: i128) -> (r: i64)
    ensures
        r as int == saturate(x as int),
{
    if x > i64::MAX as i128 {
        i64::MAX
    } else if x < i64::MIN as i128 {
        i64::MIN
    } else {
        x as i64
    }
}

/// Sum of two scalars, saturating at the ends of the `i64` range.
pub fn saturating_sum(a: i64, b: i64) -> (r: i64)
    ensures
        r as int == saturate(a as int + b as int),
{
    narrow(a as i128 + b as i128)
}

/// Exact fixed-point product of two scalars, before it is narrowed.
pub fn scaled_wide(a: i64, b: i64) -> (q: i128)
    ensures
        q as int == scaled(a as int, b as int),
        -0x800_0000_0000_0000_0000_0000_0000 <= q as int <= 0x800_0000_0000_0000_0000_0000_0000,
{
    assert(-0x4000_0000_0000_0000_0000_0000_0000_0000 <= (a as int) * (b as int)
        <= 0x4000_0000_0000_0000_0000_0000_0000_0000) by (nonlinear_arith)
        requires
            -0x8000_0000_0000_0000 <= a <= 0x7fff_ffff_ffff_ffff,
            -0x8000_0000_0000_0000 <= b <= 0x7fff_ffff_ffff_ffff,
    ;
    let wide: i128 = (a as i128) * (b as i128);
    wide / (SCALE as i128)
}

/// Fixed-point product of two scalars, saturating at the ends of the `i64`
/// range.
pub fn scaled_product(a: i64, b: i64) -> (r: i64)
    ensures
        r as int == saturate(scaled(a as int, b as int)),
{
    narrow(scaled_wide(a, b))
}

/// `x` brought into `[lo, hi]`; the lower end wins where `hi < lo`.
pub fn clamp(x: i64, lo: i64, hi: i64) -> (r: i64)
    ensures
        r as int == clamp_between(x as int, lo as int, hi as int),
{
    let capped: i64 = if x > hi { hi } else { x };
    if capped < lo {
        lo
    } else {
        capped
    }
}

/// Scaling is odd in its first argument: negating a factor negates the
/// product, with no rounding bias toward either sign.
pub proof fn lemma_scaled_odd(a: int, b: int)
    ensures
        scaled(-a, b) == -scaled(a, b),
{
    assert((-a) * b == -(a * b)) by (nonlinear_arith);
}

/// The product of a scalar that is not positive and one that is not
/// negative is not positive.
pub proof fn lemma_scaled_sign(a: int, b: int)
    requires
        a <= 0,
        b >= 0,
    ensures
        scaled(a, b) <= 0,
{
    assert(a * b <= 0) by (nonlinear_arith)
        requires
            a <= 0,
            b >= 0,
    ;
}

/// Scaling by zero, in either position, gives zero.
pub proof fn lemma_scaled_zero(a: int)
    ensures
        scaled(0, a) == 0,
        scaled(a, 0) == 0,
{
    assert(0 * a == 0 && a * 0 == 0) by (nonlinear_arith);
}

} // verus!
