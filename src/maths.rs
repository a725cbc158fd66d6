use vstd::prelude::*;

verus! {

/// `r` is the integer square root of `n`: the largest `r` with `r * r <= n`.
pub open spec fn is_isqrt(n: int, r: int) -> bool {
    0 <= r && r * r <= n && n < (r + 1) * (r + 1)
}

/// Largest input accepted by `isqrt`; its root lies below `1 << 28`.
pub const ISQRT_MAX: u64 = 0x0040_0000_0000_0000;

/// Integer square root, by bisection.
pub fn isqrt(n: u64) -> (r: u64)
    requires
        n <= ISQRT_MAX,
    ensures
        is_isqrt(n as int, r as int),
{
    let mut lo: u64 = 0;
    let mut hi: u64 = 0x1000_0000;
    assert(0x1000_0000 * 0x1000_0000 > ISQRT_MAX) by (nonlinear_arith);
    while hi - lo > 1
        invariant
            lo < hi <= 0x1000_0000,
            lo * lo <= n,
            n < hi * hi,
        decreases hi - lo,
    {
        let mid: u64 = lo + (hi - lo) / 2;
        assert(mid * mid <= 0x1000_0000 * 0x1000_0000) by (nonlinear_arith)
            requires
                mid <= 0x1000_0000,
        ;
        if mid * mid <= n {
            lo = mid;
        } else {
            hi = mid;
        }
    }
    lo
}

} // verus!
