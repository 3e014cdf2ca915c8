use vstd::prelude::*;

verus! {

/// Which way a fractional result is rounded.
#[derive(Clone, Copy, Debug, Eq, PartialEq, Structural)]
pub enum RoundDirection {
    /// Round toward zero.
    Floor,
    /// Round away from zero.
    Ceiling,
}

/// `n / d` rounded toward zero.
pub open spec fn floor_div(n: int, d: int) -> int {
    n / d
}

/// `n / d` rounded up to the next integer when there is a remainder.
pub open spec fn ceil_div(n: int, d: int) -> int {
    if n % d == 0 {
        n / d
    } else {
        n / d + 1
    }
}

/// `n / d` rounded in the given direction.
pub open spec fn div_round(n: int, d: int, round: RoundDirection) -> int {
    match round {
        RoundDirection::Floor => floor_div(n, d),
        RoundDirection::Ceiling => ceil_div(n, d),
    }
}

/// Division rounded in the given direction; `None` on a zero divisor.
pub fn checked_div_round(n: u128, d: u128, round: RoundDirection) -> (r: Option<u128>)
    ensures
        d == 0 <==> r is None,
        r matches Some(q) ==> q == div_round(n as int, d as int, round) && q <= n,
{
    if d == 0 {
        return None;
    }
    let q = n / d;
    match round {
        RoundDirection::Floor => Some(q),
        RoundDirection::Ceiling => {
            if n % d == 0 {
                Some(q)
            } else {
                proof {
                    lemma_ceil_le(n as int, d as int);
                }
                Some(q + 1)
            }
        },
    }
}

/// A quotient rounded up never exceeds the dividend when the divisor is positive.
pub proof fn lemma_ceil_le(n: int, d: int)
    requires
        n >= 0,
        d > 0,
    ensures
        ceil_div(n, d) <= n,
        n / d <= ceil_div(n, d),
        ceil_div(n, d) * d >= n,
{
    vstd::arithmetic::div_mod::lemma_fundamental_div_mod(n, d);
    if n % d != 0 {
        assert(n / d < n) by (nonlinear_arith)
            requires
                n == d * (n / d) + n % d,
                0 < n % d < d,
                n / d >= 0,
        ;
        assert((n / d + 1) * d >= n) by (nonlinear_arith)
            requires
                n == d * (n / d) + n % d,
                n % d < d,
        ;
    } else {
        assert((n / d) * d == n) by (nonlinear_arith)
            requires
                n == d * (n / d) + n % d,
                n % d == 0,
        ;
        assert(n / d <= n) by (nonlinear_arith)
            requires
                n == d * (n / d),
                n >= 0,
                d > 0,
        ;
    }
}

/// A product of two 64-bit values fits in 128 bits.
pub proof fn lemma_mul_u64_fits(a: u64, b: u64)
    ensures
        0 <= a * b <= u128::MAX,
        a * b <= a * u64::MAX,
{
    assert(0 <= a * b <= u128::MAX && a * b <= a * u64::MAX) by (nonlinear_arith)
        requires
            a <= u64::MAX,
            b <= u64::MAX,
            a >= 0,
            b >= 0,
    ;
}

/// The integer square root of `n`: the `r >= 0` with `r * r <= n < (r + 1) * (r + 1)`.
pub open spec fn isqrt(n: int) -> int {
    choose|r: int| is_root(n, r)
}

/// `r` is the integer square root of `n`.
pub open spec fn is_root(n: int, r: int) -> bool {
    0 <= r && r * r <= n && n < (r + 1) * (r + 1)
}

/// Only one value is the integer square root.
pub proof fn lemma_isqrt_unique(n: int, r: int)
    requires
        0 <= r,
        r * r <= n,
        n < (r + 1) * (r + 1),
    ensures
        isqrt(n) == r,
{
    assert(is_root(n, r));
    let s = isqrt(n);
    assert(is_root(n, s));
    assert(0 <= s && s * s <= n && n < (s + 1) * (s + 1));
    if s < r {
        assert(false) by (nonlinear_arith)
            requires
                0 <= s < r,
                r * r <= n,
                n < (s + 1) * (s + 1),
        ;
    }
    if r < s {
        assert(false) by (nonlinear_arith)
            requires
                0 <= r < s,
                s * s <= n,
                n < (r + 1) * (r + 1),
        ;
    }
}

/// The integer square root is monotone against known bounds: at least `r` when
/// `r * r <= n`, at most `r` when `n < (r + 1) * (r + 1)`.
pub proof fn lemma_isqrt_bounds(n: int, r: int)
    requires
        n >= 0,
        r >= 0,
    ensures
        r * r <= n ==> r <= isqrt(n),
        n < (r + 1) * (r + 1) ==> isqrt(n) <= r,
        isqrt(n) >= 0,
{
    let s = isqrt(n);
    assert(is_root(n, s)) by {
        let w = lemma_isqrt_exists(n);
        assert(is_root(n, w));
    }
    if r * r <= n && s < r {
        assert(false) by (nonlinear_arith)
            requires
                0 <= s < r,
                r * r <= n,
                n < (s + 1) * (s + 1),
        ;
    }
    if n < (r + 1) * (r + 1) && r < s {
        assert(false) by (nonlinear_arith)
            requires
                0 <= r < s,
                s * s <= n,
                n < (r + 1) * (r + 1),
        ;
    }
}

/// Every nonnegative integer has an integer square root.
pub proof fn lemma_isqrt_exists(n: int) -> (w: int)
    requires
        n >= 0,
    ensures
        is_root(n, w),
    decreases n,
{
    if n == 0 {
        assert(is_root(0, 0));
        0
    } else {
        let v = lemma_isqrt_exists(n - 1);
        if n < (v + 1) * (v + 1) {
            v
        } else {
            assert((v + 1) * (v + 1) == n) by (nonlinear_arith)
                requires
                    n - 1 < (v + 1) * (v + 1),
                    n >= (v + 1) * (v + 1),
            ;
            assert(n < (v + 2) * (v + 2)) by (nonlinear_arith)
                requires
                    (v + 1) * (v + 1) == n,
                    v >= 0,
            ;
            v + 1
        }
    }
}

/// `ceil(m * k / d)` is at most `m` when `k <= d`.
pub proof fn lemma_ceil_mul_le(m: int, k: int, d: int)
    requires
        m >= 0,
        0 <= k <= d,
        d > 0,
    ensures
        0 <= ceil_div(m * k, d) <= m,
        0 <= m * k / d <= m,
{
    let p = m * k;
    assert(0 <= p <= m * d) by (nonlinear_arith)
        requires
            p == m * k,
            m >= 0,
            0 <= k <= d,
    ;
    lemma_ceil_le(p, d);
    vstd::arithmetic::div_mod::lemma_div_is_ordered(p, m * d, d);
    vstd::arithmetic::div_mod::lemma_div_by_multiple(m, d);
    vstd::arithmetic::div_mod::lemma_div_pos_is_pos(p, d);
    if p % d != 0 && p / d == m {
        vstd::arithmetic::div_mod::lemma_fundamental_div_mod(p, d);
        assert(false) by (nonlinear_arith)
            requires
                p == d * (p / d) + p % d,
                p % d > 0,
                p / d == m,
                p <= m * d,
        ;
    }
}

/// The integer square root: the largest `r` with `r * r <= n`.
pub fn sqrt(n: u128) -> (r: u64)
    ensures
        r * r <= n,
        n < (r + 1) * (r + 1),
        r == isqrt(n as int),
{
    let mut lo: u128 = 0;
    let mut hi: u128 = 0x1_0000_0000_0000_0000;
    assert(n < hi * hi) by (nonlinear_arith)
        requires
            hi == 0x1_0000_0000_0000_0000u128,
            n <= u128::MAX,
    ;
    while hi - lo > 1
        invariant
            lo < hi <= 0x1_0000_0000_0000_0000,
            lo * lo <= n,
            n < hi * hi,
        decreases hi - lo,
    {
        let mid: u128 = lo + (hi - lo) / 2;
        assert(mid * mid < 0x1_0000_0000_0000_0000 * 0x1_0000_0000_0000_0000) by (nonlinear_arith)
            requires
                mid < 0x1_0000_0000_0000_0000,
        ;
        if mid * mid <= n {
            lo = mid;
        } else {
            hi = mid;
        }
    }
    proof {
        lemma_isqrt_unique(n as int, lo as int);
    }
    lo as u64
}

} // verus!
