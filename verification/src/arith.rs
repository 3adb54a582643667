//! Integer square root and the bounds the movement rules need.

use vstd::prelude::*;
use vstd::arithmetic::div_mod::{lemma_div_is_ordered, lemma_div_multiples_vanish};
use vstd::arithmetic::mul::lemma_mul_inequality;

verus! {

/// The integer square root: the unique `r >= 0` with
/// `r * r <= n < (r + 1) * (r + 1)`.
pub open spec fn spec_isqrt(n: int) -> int {
    choose|r: int| 0 <= r && #[trigger] (r * r) <= n < (r + 1) * (r + 1)
}

/// Two integer square roots of the same value agree.
proof fn lemma_isqrt_unique(n: int, a: int, b: int)
    requires
        0 <= a,
        a * a <= n < (a + 1) * (a + 1),
        0 <= b,
        b * b <= n < (b + 1) * (b + 1),
    ensures
        a == b,
{
    assert(a == b) by (nonlinear_arith)
        requires
            0 <= a,
            a * a <= n < (a + 1) * (a + 1),
            0 <= b,
            b * b <= n < (b + 1) * (b + 1),
    ;
}

/// Binary-search integer square root over `u64`, for radicands up to
/// `8 * 10^18` (the largest a squared world distance can reach).
pub fn isqrt64(n: u64) -> (r: u64)
    requires
        n <= 8_000_000_000_000_000_000,
    ensures
        (r as int) * (r as int) <= n < ((r + 1) as int) * ((r + 1) as int),
        r == spec_isqrt(n as int),
{
    let mut lo: u64 = 0;
    let mut hi: u64 = 3_000_000_000;
    proof {
        assert((hi as int) * (hi as int) > n);
    }
    while lo + 1 < hi
        invariant
            lo < hi <= 3_000_000_000,
            (lo as int) * (lo as int) <= n,
            (hi as int) * (hi as int) > n,
        decreases hi - lo,
    {
        let mid: u64 = lo + (hi - lo) / 2;
        proof {
            assert((mid as int) * (mid as int) <= 9_000_000_000_000_000_000) by (nonlinear_arith)
                requires
                    mid <= 3_000_000_000,
            ;
        }
        if mid * mid <= n {
            lo = mid;
        } else {
            hi = mid;
        }
    }
    proof {
        assert(((lo + 1) as int) * ((lo + 1) as int) >= (hi as int) * (hi as int))
            by (nonlinear_arith)
            requires
                lo + 1 >= hi,
                hi >= 1,
        ;
        lemma_isqrt_unique(n as int, lo as int, spec_isqrt(n as int));
    }
    lo
}

/// A component of a step toward the destination never exceeds the
/// speed: `|dx| <= len` forces `(|dx| * speed) / len <= speed`.
pub proof fn lemma_step_le_speed(ax: int, d2: int, len: int, speed: int)
    requires
        0 <= ax,
        ax * ax <= d2,
        0 <= len,
        len * len <= d2 < (len + 1) * (len + 1),
        0 <= speed,
        1 <= len,
    ensures
        0 <= (ax * speed) / len <= speed,
{
    assert(ax <= len) by (nonlinear_arith)
        requires
            0 <= ax,
            0 <= len,
            ax * ax <= d2 < (len + 1) * (len + 1),
    ;
    lemma_mul_inequality(ax, len, speed);
    lemma_div_is_ordered(ax * speed, len * speed, len);
    lemma_div_multiples_vanish(speed, len);
    assert(len * speed == speed * len) by (nonlinear_arith);
}

} // verus!
