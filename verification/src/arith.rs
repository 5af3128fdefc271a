//! Fixed-point arithmetic: truncating quotients, scaling by a factor in
//! thousandths, saturation into the coordinate range and integer square roots.

use vstd::prelude::*;

verus! {

/// The fixed-point value that stands for 1.
pub const UNIT: i32 = 1000;

/// Largest magnitude that `scale` accepts.
pub const WIDE: i128 = 0x400_0000_0000_0000_0000_0000;

/// Largest magnitude of a sum of coordinates over a whole population.
pub const TALLY: i128 = 0x1_0000_0000_0000_0000;

/// Largest magnitude that `scale` returns.
pub const SCALED_WIDE: i128 = 0x1_0000_0000_0000_0000_0000_0000_0000;

/// Largest magnitude that `scale` returns on a value within `TALLY`.
pub const SCALED_TALLY: i128 = 0x40_0000_0000_0000_0000_0000;

/// The quotient of `a` by a positive `b`, rounded toward zero.
pub open spec fn quot(a: int, b: int) -> int {
    if a >= 0 {
        a / b
    } else {
        -((-a) / b)
    }
}

/// `x` multiplied by a factor given in thousandths.
pub open spec fn scaled(x: int, factor: int) -> int {
    quot(x * factor, UNIT as int)
}

/// `x` held to the range of a coordinate.
pub open spec fn saturated(x: int) -> int {
    if x > i32::MAX {
        i32::MAX as int
    } else if x < i32::MIN {
        i32::MIN as int
    } else {
        x
    }
}

/// `r` is the integer part of the square root of `n`.
pub open spec fn is_root(n: int, r: int) -> bool {
    0 <= r && r * r <= n < (r + 1) * (r + 1)
}

/// The integer part of the square root of `n`.
pub open spec fn root(n: int) -> int {
    choose|r: int| is_root(n, r)
}

/// A number has at most one integer square root.
pub proof fn lemma_root_unique(n: int, r: int, s: int)
    requires
        is_root(n, r),
        is_root(n, s),
    ensures
        r == s,
{
    if r < s {
        assert((r + 1) * (r + 1) <= s * s) by (nonlinear_arith)
            requires 0 <= r + 1 <= s;
    }
    if s < r {
        assert((s + 1) * (s + 1) <= r * r) by (nonlinear_arith)
            requires 0 <= s + 1 <= r;
    }
}

/// Every number that is not negative has an integer square root.
pub proof fn lemma_root_exists(n: int)
    requires
        n >= 0,
    ensures
        is_root(n, root(n)),
    decreases n,
{
    if n == 0 {
        assert(is_root(0, 0));
    } else {
        lemma_root_exists(n - 1);
        let r = root(n - 1);
        if (r + 1) * (r + 1) <= n {
            assert((r + 2) * (r + 2) > n) by (nonlinear_arith)
                requires n - 1 < (r + 1) * (r + 1), r >= 0;
            assert(is_root(n, r + 1));
        } else {
            assert(is_root(n, r));
        }
    }
}

/// The magnitude of a product is bounded by the product of the bounds.
pub proof fn lemma_product_bound(a: int, b: int, m: int, n: int)
    requires
        -m <= a <= m,
        -n <= b <= n,
    ensures
        -(m * n) <= a * b <= m * n,
{
    assert(-(m * n) <= a * b <= m * n) by (nonlinear_arith)
        requires -m <= a <= m, -n <= b <= n;
}

/// A truncated quotient is no larger in magnitude than the quotient of a bound.
pub proof fn lemma_quot_bound(a: int, b: int, m: int)
    requires
        b > 0,
        -m <= a <= m,
    ensures
        -(m / b) <= quot(a, b) <= m / b,
        -m <= quot(a, b) <= m,
{
    if a >= 0 {
        assert(0 <= a / b <= m / b && m / b <= m) by (nonlinear_arith)
            requires b > 0, 0 <= a <= m;
    } else {
        assert(0 <= (-a) / b <= m / b && m / b <= m) by (nonlinear_arith)
            requires b > 0, 0 <= -a <= m;
    }
}

/// Divides by a positive number, rounding toward zero.
pub fn quotient(a: i128, b: i128) -> (r: i128)
    requires
        b > 0,
        a > i128::MIN,
    ensures
        r == quot(a as int, b as int),
{
    if a >= 0 {
        a / b
    } else {
        -((-a) / b)
    }
}

/// Multiplies by a factor given in thousandths, rounding toward zero.
pub fn scale(x: i128, factor: i32) -> (r: i128)
    requires
        -WIDE <= x <= WIDE,
    ensures
        r == scaled(x as int, factor as int),
        -SCALED_WIDE <= r <= SCALED_WIDE,
        -TALLY <= x <= TALLY ==> -SCALED_TALLY <= r <= SCALED_TALLY,
{
    proof {
        lemma_product_bound(x as int, factor as int, WIDE as int, 0x8000_0000);
        lemma_quot_bound(x * factor, 1000, WIDE * 0x8000_0000);
        if -TALLY <= x <= TALLY {
            lemma_product_bound(x as int, factor as int, TALLY as int, 0x8000_0000);
            lemma_quot_bound(x * factor, 1000, TALLY * 0x8000_0000);
        }
    }
    quotient(x * (factor as i128), UNIT as i128)
}

/// Holds a wide value to the range of a coordinate.
pub fn saturate(x: i128) -> (r: i32)
    ensures
        r == saturated(x as int),
{
    if x > i32::MAX as i128 {
        i32::MAX
    } else if x < i32::MIN as i128 {
        i32::MIN
    } else {
        x as i32
    }
}

/// The integer part of the square root of `n`.
pub fn isqrt(n: u64) -> (r: u64)
    ensures
        r == root(n as int),
        is_root(n as int, r as int),
        r < 0x1_0000_0000,
        n > 0 ==> r > 0,
{
    let mut low: u64 = 0;
    let mut high: u64 = 0x1_0000_0000;
    assert(0x1_0000_0000u64 * 0x1_0000_0000u64 > n) by (nonlinear_arith);
    while high - low > 1
        invariant
            low < high <= 0x1_0000_0000,
            low * low <= n < high * high,
        decreases high - low,
    {
        let mid: u64 = low + (high - low) / 2;
        assert(mid * mid <= 0xffff_ffff * 0xffff_ffff) by (nonlinear_arith)
            requires 0 <= mid <= 0xffff_ffff;
        if mid * mid <= n {
            low = mid;
        } else {
            high = mid;
        }
    }
    proof {
        assert(high == low + 1);
        assert(is_root(n as int, low as int));
        if low == 0 {
            assert((low + 1) * (low + 1) == 1) by (nonlinear_arith)
                requires low == 0;
        }
        lemma_root_unique(n as int, low as int, root(n as int));
    }
    low
}

} // verus!
