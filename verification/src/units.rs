//! Integer arithmetic on coordinates.
//!
//! Positions, extents and texture coordinates are `i64` values in a unit
//! that the caller chooses (a fraction of a pixel, a fraction of the texture
//! side). Sums that leave the range of `i64` stop at its ends.

use vstd::prelude::*;

verus! {

/// `v`, held to the range of `i64`.
pub open spec fn saturate(v: int) -> int {
    if v < i64::MIN {
        i64::MIN as int
    } else if v > i64::MAX {
        i64::MAX as int
    } else {
        v
    }
}

/// Half of `v`, rounded down.
pub open spec fn half(v: int) -> int {
    v / 2
}

/// The share `part / whole` of `span`, rounded down; zero where `whole` is
/// not positive.
pub open spec fn rescale(span: int, part: int, whole: int) -> int {
    if whole > 0 {
        (span * part) / whole
    } else {
        0
    }
}

/// Brings a wide value into the range of `i64`.
pub fn narrow(v: i128) -> (r: i64)
    ensures
        r == saturate(v as int),
{
    if v < -0x8000_0000_0000_0000i128 {
        i64::MIN
    } else if v > 0x7fff_ffff_ffff_ffffi128 {
        i64::MAX
    } else {
        v as i64
    }
}

/// The sum of two coordinates, saturating.
pub fn sat_add(a: i64, b: i64) -> (r: i64)
    ensures
        r == saturate(a + b),
{
    narrow(a as i128 + b as i128)
}

/// The difference of two coordinates, saturating.
pub fn sat_sub(a: i64, b: i64) -> (r: i64)
    ensures
        r == saturate(a - b),
{
    narrow(a as i128 - b as i128)
}

/// The negation of a coordinate, saturating.
pub fn sat_neg(a: i64) -> (r: i64)
    ensures
        r == saturate(-a),
{
    narrow(0i128 - a as i128)
}

/// Half of a wide value, rounded down.
pub fn half_of(v: i128) -> (r: i128)
    ensures
        r == half(v as int),
{
    if v >= 0 {
        v / 2
    } else {
        let m: i128 = 0i128 - (v + 1);
        0i128 - m / 2 - 1
    }
}

/// The product of two coordinates, which always fits the wide type.
pub fn wide_product(a: i64, b: i64) -> (r: i128)
    ensures
        r == a * b,
        -0x4000_0000_0000_0000_0000_0000_0000_0000 <= r <= 0x4000_0000_0000_0000_0000_0000_0000_0000,
{
    let w: i128 = a as i128;
    let v: i128 = b as i128;
    assert(-0x4000_0000_0000_0000_0000_0000_0000_0000 <= w * v
        <= 0x4000_0000_0000_0000_0000_0000_0000_0000) by (nonlinear_arith)
        requires
            -0x8000_0000_0000_0000 <= w < 0x8000_0000_0000_0000,
            -0x8000_0000_0000_0000 <= v < 0x8000_0000_0000_0000,
    ;
    w * v
}

/// The share `part / whole` of `span`, rounded down, as a wide value.
pub fn rescaled(span: i64, part: i64, whole: i64) -> (r: i128)
    ensures
        r == rescale(span as int, part as int, whole as int),
        -0x4000_0000_0000_0000_0000_0000_0000_0000 <= r <= 0x4000_0000_0000_0000_0000_0000_0000_0000,
{
    if whole <= 0 {
        return 0;
    }
    let product: i128 = wide_product(span, part);
    let divisor: i128 = whole as i128;
    if product >= 0 {
        let q: i128 = product / divisor;
        assert(0 <= q <= product) by (nonlinear_arith)
            requires
                q == product / divisor,
                product >= 0,
                divisor > 0,
        ;
        q
    } else {
        let m: i128 = 0i128 - product;
        let q: i128 = m / divisor;
        let rem: i128 = m % divisor;
        assert(0 <= q <= m && m == q * divisor + rem && 0 <= rem < divisor) by (nonlinear_arith)
            requires
                q == m / divisor,
                rem == m % divisor,
                m > 0,
                divisor > 0,
        ;
        if rem == 0 {
            assert(product / divisor == -q) by (nonlinear_arith)
                requires
                    product == -(q * divisor),
                    divisor > 0,
            ;
            0i128 - q
        } else {
            assert(product / divisor == -q - 1 && q < m) by (nonlinear_arith)
                requires
                    product == -(q * divisor + rem),
                    m == q * divisor + rem,
                    0 <= q,
                    0 < rem < divisor,
                    divisor > 0,
            ;
            0i128 - q - 1
        }
    }
}

} // verus!
