//! Fractional amounts as whole numbers of 1/65536.
use vstd::prelude::*;

verus! {

/// One.
pub const FIXED_ONE: i64 = 65_536;

/// The distance from zero.
pub open spec fn magnitude(v: int) -> int {
    if v < 0 { -v } else { v }
}

/// The nearest whole number of `n`ths, halves away from zero.
pub open spec fn rounded(v: int, n: int) -> int {
    if v >= 0 { (2 * v + n) / (2 * n) } else { -((n - 2 * v) / (2 * n)) }
}

/// A value cut to what 32 bits hold.
pub open spec fn cut_to_i32(v: int) -> int {
    if v > i32::MAX {
        i32::MAX as int
    } else if v < i32::MIN {
        i32::MIN as int
    } else {
        v
    }
}

/// A value cut to what 64 bits hold.
pub open spec fn cut_to_i64(v: int) -> int {
    if v > i64::MAX {
        i64::MAX as int
    } else if v < i64::MIN {
        i64::MIN as int
    } else {
        v
    }
}

/// A value cut to what 128 bits hold.
pub open spec fn cut_to_i128(v: int) -> int {
    if v > i128::MAX {
        i128::MAX as int
    } else if v < i128::MIN {
        i128::MIN as int
    } else {
        v
    }
}

/// The distance from zero.
pub fn abs_i64(v: i64) -> (r: i128)
    ensures
        r == magnitude(v as int),
{
    if v < 0 { -(v as i128) } else { v as i128 }
}

/// The distance from zero.
pub fn abs_i128(v: i128) -> (r: u128)
    ensures
        r == magnitude(v as int),
{
    if v >= 0 {
        v as u128
    } else {
        (-(v + 1)) as u128 + 1
    }
}

/// `v * factor`, an amount, as the nearest whole number, cut to 32 bits.
pub fn round_to_i32(v: i64, factor: u32) -> (r: i32)
    requires
        factor <= 1000,
    ensures
        r == cut_to_i32(rounded(v * factor, FIXED_ONE as int)),
{
    proof {
        assert(-0x8000_0000_0000_0000 * 1000 <= v * factor <= 0x7fff_ffff_ffff_ffff * 1000)
            by (nonlinear_arith)
            requires
                -0x8000_0000_0000_0000 <= v <= 0x7fff_ffff_ffff_ffff,
                0 <= factor <= 1000,
        ;
    }
    let scaled: i128 = v as i128 * factor as i128;
    let one: i128 = 65_536;
    let whole: i128 = if scaled >= 0 {
        (2 * scaled + one) / 131_072
    } else {
        -((one - 2 * scaled) / 131_072)
    };
    if whole > 2_147_483_647 {
        i32::MAX
    } else if whole < -2_147_483_648 {
        i32::MIN
    } else {
        whole as i32
    }
}

/// A sum cut to 128 bits.
pub fn add_cut(a: i128, b: i64) -> (r: i128)
    ensures
        r == cut_to_i128(a + b),
{
    let d: i128 = b as i128;
    if d > 0 && a > i128::MAX - d {
        i128::MAX
    } else if d < 0 && a < i128::MIN - d {
        i128::MIN
    } else {
        a + d
    }
}

/// A product cut to 64 bits.
pub fn times_cut(v: i64, factor: i64) -> (r: i64)
    ensures
        r == cut_to_i64(v * factor),
{
    proof {
        assert(-0x4000_0000_0000_0000_0000_0000_0000_0000 <= v * factor
            <= 0x4000_0000_0000_0000_0000_0000_0000_0000) by (nonlinear_arith)
            requires
                -0x8000_0000_0000_0000 <= v <= 0x7fff_ffff_ffff_ffff,
                -0x8000_0000_0000_0000 <= factor <= 0x7fff_ffff_ffff_ffff,
        ;
    }
    let p: i128 = v as i128 * factor as i128;
    if p > 9_223_372_036_854_775_807 {
        i64::MAX
    } else if p < -9_223_372_036_854_775_808 {
        i64::MIN
    } else {
        p as i64
    }
}

/// Law: rounding gives the nearest whole number, halves away from zero, and is the
/// same for an amount and its opposite.
pub proof fn law_rounding_is_to_the_nearest(v: int, n: int, whole: int)
    requires
        n > 0,
        n % 2 == 0,
    ensures
        -n <= 2 * (n * rounded(v, n) - v) <= n,
        rounded(-v, n) == -rounded(v, n),
        rounded(whole * n, n) == whole,
{
    let a = if v >= 0 { v } else { -v };
    let q = (2 * a + n) / (2 * n);
    assert(2 * n * q <= 2 * a + n < 2 * n * q + 2 * n) by (nonlinear_arith)
        requires
            n > 0,
            q == (2 * a + n) / (2 * n),
    ;
    assert(2 * (n * q) == 2 * n * q) by (nonlinear_arith);
    assert(n * -q == -(n * q)) by (nonlinear_arith);
    assert(rounded(v, n) == if v >= 0 { q } else { -q });
    if v == 0 {
        assert(n / (2 * n) == 0) by (nonlinear_arith)
            requires
                n > 0,
        ;
    }
    let b = if whole >= 0 { whole } else { -whole };
    assert((2 * (b * n) + n) / (2 * n) == b) by (nonlinear_arith)
        requires
            n > 0,
            b >= 0,
    ;
    assert(b * n >= 0) by (nonlinear_arith)
        requires
            n > 0,
            b >= 0,
    ;
    assert(whole < 0 ==> whole * n == -(b * n)) by (nonlinear_arith)
        requires
            b == if whole >= 0 { whole } else { -whole },
    ;
    assert(whole < 0 ==> b * n > 0) by (nonlinear_arith)
        requires
            n > 0,
            b == if whole >= 0 { whole } else { -whole },
    ;
}

/// Law: cutting leaves what fits and takes the nearest bound for the rest.
pub proof fn law_cutting_keeps_what_fits(v: int)
    ensures
        i32::MIN <= v <= i32::MAX ==> cut_to_i32(v) == v,
        i64::MIN <= v <= i64::MAX ==> cut_to_i64(v) == v,
        i128::MIN <= v <= i128::MAX ==> cut_to_i128(v) == v,
        v > i32::MAX ==> cut_to_i32(v) == i32::MAX,
        v < i32::MIN ==> cut_to_i32(v) == i32::MIN,
        v > i64::MAX ==> cut_to_i64(v) == i64::MAX,
        v < i64::MIN ==> cut_to_i64(v) == i64::MIN,
{
}

/// Law: the distance from zero is that of the amount and of its opposite, and never
/// negative.
pub proof fn law_magnitude_has_no_sign(v: int)
    ensures
        magnitude(v) >= 0,
        magnitude(v) == magnitude(-v),
        v >= 0 ==> magnitude(v) == v,
{
}

} // verus!
