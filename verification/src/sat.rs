//! Saturating and truncating integer arithmetic used by the fixed-point code.
use vstd::prelude::*;

verus! {

/// `x` clamped to the range of `i64`.
pub open spec fn sat64(x: int) -> i64 {
    if x > i64::MAX {
        i64::MAX
    } else if x < i64::MIN {
        i64::MIN
    } else {
        x as i64
    }
}

/// Division rounding toward zero (what Rust's `/` does on signed integers).
pub open spec fn trunc_div(a: int, d: int) -> int {
    if a >= 0 {
        a / d
    } else {
        -((-a) / d)
    }
}

/// Saturating addition of two `i64`.
pub fn sat_add(a: i64, b: i64) -> (r: i64)
    ensures
        r == sat64(a + b),
{
    match a.checked_add(b) {
        Some(v) => v,
        None => {
            if b > 0 {
                i64::MAX
            } else {
                i64::MIN
            }
        },
    }
}

/// Saturating subtraction of two `i64`.
pub fn sat_sub(a: i64, b: i64) -> (r: i64)
    ensures
        r == sat64(a - b),
{
    match a.checked_sub(b) {
        Some(v) => v,
        None => {
            if b < 0 {
                i64::MAX
            } else {
                i64::MIN
            }
        },
    }
}

/// Saturating multiplication of two `i64`.
pub fn sat_mul(a: i64, b: i64) -> (r: i64)
    ensures
        r == sat64(a * b),
{
    match a.checked_mul(b) {
        Some(v) => v,
        None => {
            proof {
                if (a > 0 && b > 0) || (a < 0 && b < 0) {
                    assert(a * b > 0) by (nonlinear_arith)
                        requires
                            (a > 0 && b > 0) || (a < 0 && b < 0),
                    ;
                } else {
                    assert(a * b <= 0) by (nonlinear_arith)
                        requires
                            !((a > 0 && b > 0) || (a < 0 && b < 0)),
                    ;
                }
            }
            if (a > 0) == (b > 0) {
                i64::MAX
            } else {
                i64::MIN
            }
        },
    }
}

/// `x` restricted to `[lo, hi]`, as `Ord::clamp` computes it for `lo <= hi`.
pub fn clamp_i64(x: i64, lo: i64, hi: i64) -> (r: i64)
    requires
        lo <= hi,
    ensures
        r == (if x < lo {
            lo
        } else if x > hi {
            hi
        } else {
            x
        }),
{
    if x < lo {
        lo
    } else if x > hi {
        hi
    } else {
        x
    }
}

/// The smaller of two `i64`, as `Ord::min` computes it.
pub fn min_i64(a: i64, b: i64) -> (r: i64)
    ensures
        r == (if b < a {
            b
        } else {
            a
        }),
{
    if b < a {
        b
    } else {
        a
    }
}

/// The larger of two `i64`, as `Ord::max` computes it.
pub fn max_i64(a: i64, b: i64) -> (r: i64)
    ensures
        r == (if b < a {
            a
        } else {
            b
        }),
{
    if b < a {
        a
    } else {
        b
    }
}

/// `x` restricted to `[lo, hi]` for `u32`, as `Ord::clamp` computes it.
pub fn clamp_u32(x: u32, lo: u32, hi: u32) -> (r: u32)
    requires
        lo <= hi,
    ensures
        r == (if x < lo {
            lo
        } else if x > hi {
            hi
        } else {
            x
        }),
{
    if x < lo {
        lo
    } else if x > hi {
        hi
    } else {
        x
    }
}

/// Absolute value of an `i64` other than `i64::MIN`.
pub fn abs_i64(x: i64) -> (r: i64)
    requires
        x != i64::MIN,
    ensures
        r == (if x < 0 {
            -x
        } else {
            x as int
        }),
{
    if x < 0 {
        -x
    } else {
        x
    }
}

/// Dividing by a divisor of magnitude at least 2 (rounding toward zero) at
/// least halves the magnitude.
pub proof fn lemma_trunc_div_halves(a: int, d: int)
    requires
        d >= 2 || d <= -2,
    ensures
        -a <= 2 * trunc_div(a, d) <= a || a <= 2 * trunc_div(a, d) <= -a,
{
    let x: int = if a >= 0 {
        a
    } else {
        -a
    };
    let q = x / d;
    let r = x % d;
    vstd::arithmetic::div_mod::lemma_fundamental_div_mod(x, d);
    if d > 0 {
        vstd::arithmetic::div_mod::lemma_mod_bound(x, d);
    }
    assert(0 <= r < (if d > 0 {
        d
    } else {
        -d
    }));
    if d > 0 {
        assert(0 <= 2 * q <= x) by (nonlinear_arith)
            requires
                x == d * q + r,
                0 <= r < d,
                d >= 2,
                x >= 0,
        ;
    } else {
        assert(0 <= -2 * q <= x) by (nonlinear_arith)
            requires
                x == d * q + r,
                0 <= r < -d,
                d <= -2,
                x >= 0,
        ;
    }
}

/// The product of two `i64` always fits in an `i128`.
pub proof fn lemma_i64_product_fits_i128(a: i64, b: i64)
    ensures
        i128::MIN <= a * b <= i128::MAX,
{
    assert(-0x8000_0000_0000_0000 * 0x8000_0000_0000_0000 <= a * b <= 0x8000_0000_0000_0000
        * 0x8000_0000_0000_0000) by (nonlinear_arith)
        requires
            -0x8000_0000_0000_0000 <= a <= 0x7fff_ffff_ffff_ffff,
            -0x8000_0000_0000_0000 <= b <= 0x7fff_ffff_ffff_ffff,
    ;
}

} // verus!
