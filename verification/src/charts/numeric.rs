//! Fixed-point arithmetic shared by every chart: saturation, clamping and
//! floor division over wide intermediates.

use vstd::prelude::*;

verus! {

/// One whole unit (a pixel, a data unit, a zoom factor of one, a colour
/// channel at full strength) in thousandths.
pub const UNIT: i32 = 1000;

/// The nearest representable value to `v`.
pub open spec fn sat(v: int) -> int {
    if v < i32::MIN as int {
        i32::MIN as int
    } else if v > i32::MAX as int {
        i32::MAX as int
    } else {
        v
    }
}

/// `v` limited to the interval from `lo` to `hi`.
pub open spec fn clamp(v: int, lo: int, hi: int) -> int {
    if v < lo {
        lo
    } else if v > hi {
        hi
    } else {
        v
    }
}

/// The larger of two integers.
pub open spec fn max_int(a: int, b: int) -> int {
    if a >= b {
        a
    } else {
        b
    }
}

/// The smaller of two integers.
pub open spec fn min_int(a: int, b: int) -> int {
    if a <= b {
        a
    } else {
        b
    }
}

/// Floor division agrees with its mirror image on the negative side.
proof fn lemma_floor_of_negative(a: int, b: int)
    requires
        a < 0,
        b > 0,
    ensures
        a / b == -1 - (-(a + 1)) / b,
{
    let m = -(a + 1);
    let q = m / b;
    let r = m % b;
    vstd::arithmetic::div_mod::lemma_fundamental_div_mod(m, b);
    assert(a == b * (-q - 1) + (b - 1 - r)) by (nonlinear_arith)
        requires
            m == b * q + r,
            a == -m - 1,
    ;
    vstd::arithmetic::div_mod::lemma_fundamental_div_mod_converse(a, b, -q - 1, b - 1 - r);
}

/// Narrows a wide intermediate, saturating at the ends of the `i32` range.
pub fn saturate(v: i128) -> (r: i32)
    ensures
        r as int == sat(v as int),
{
    if v < i32::MIN as i128 {
        i32::MIN
    } else if v > i32::MAX as i128 {
        i32::MAX
    } else {
        v as i32
    }
}

/// Floor division by a positive divisor.
pub fn div_floor(num: i128, den: i128) -> (q: i128)
    requires
        den > 0,
    ensures
        q as int == num as int / den as int,
{
    if num >= 0 {
        num / den
    } else {
        proof {
            lemma_floor_of_negative(num as int, den as int);
        }
        let mirrored: i128 = -(num + 1);
        -1 - mirrored / den
    }
}

/// The exact product of two 64-bit factors.
pub fn mul_wide(a: i64, b: i64) -> (product: i128)
    ensures
        product as int == a as int * b as int,
{
    assert(-0x4000_0000_0000_0000_0000_0000_0000_0000 <= a as int * b as int
        <= 0x4000_0000_0000_0000_0000_0000_0000_0000) by (nonlinear_arith)
        requires
            -0x8000_0000_0000_0000 <= a as int <= 0x8000_0000_0000_0000,
            -0x8000_0000_0000_0000 <= b as int <= 0x8000_0000_0000_0000,
    ;
    a as i128 * b as i128
}

/// A product is bounded by the product of the bounds of its factors.
pub proof fn lemma_mul_bound(a: int, b: int, bound_a: int, bound_b: int)
    by (nonlinear_arith)
    requires
        -bound_a <= a <= bound_a,
        -bound_b <= b <= bound_b,
    ensures
        -(bound_a * bound_b) <= a * b <= bound_a * bound_b,
{
}

/// Dividing by a positive divisor never takes a value further from zero.
pub proof fn lemma_div_bound(a: int, d: int, bound: int)
    requires
        d >= 1,
        -bound <= a <= bound,
    ensures
        -bound <= a / d <= bound,
{
    vstd::arithmetic::div_mod::lemma_fundamental_div_mod(a, d);
    let q = a / d;
    let r = a % d;
    assert(-bound <= q <= bound) by (nonlinear_arith)
        requires
            a == d * q + r,
            0 <= r < d,
            d >= 1,
            -bound <= a <= bound,
    ;
}

/// The exact product of an index and a 64-bit factor.
pub fn mul_index(index: usize, b: i64) -> (product: i128)
    ensures
        product as int == index as int * b as int,
{
    proof {
        lemma_mul_bound(index as int, b as int, 0xffff_ffff_ffff_ffff, 0x8000_0000_0000_0000);
        assert(0xffff_ffff_ffff_ffff * 0x8000_0000_0000_0000
            == 0x7fff_ffff_ffff_ffff_8000_0000_0000_0000int) by (nonlinear_arith);
    }
    index as i128 * b as i128
}

/// The exact product of a wide value of at most 96 bits and a 32-bit factor.
pub fn mul_narrow(a: i128, b: i32) -> (product: i128)
    requires
        -0x8000_0000_0000_0000_0000_0000 <= a <= 0x8000_0000_0000_0000_0000_0000,
    ensures
        product as int == a as int * b as int,
{
    proof {
        lemma_mul_bound(a as int, b as int, 0x8000_0000_0000_0000_0000_0000, 0x8000_0000);
        assert(0x8000_0000_0000_0000_0000_0000 * 0x8000_0000
            == 0x4000_0000_0000_0000_0000_0000_0000_0000int) by (nonlinear_arith);
    }
    a * b as i128
}

} // verus!
