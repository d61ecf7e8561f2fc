//! Fixed-point arithmetic for positions, velocities and multipliers.
//!
//! A quantity is an `i64` that counts thousandths: the value `v` stands for the
//! real number `v / 1000`. Sums and products saturate at `±LIMIT`, so every
//! operation is total and no result leaves the representable range.

use vstd::prelude::*;

verus! {

/// The fixed-point representation of the number one.
pub const ONE: i64 = 1000;

/// The largest magnitude a stored quantity can have (a million whole units).
pub const LIMIT: i64 = 1_000_000_000;

/// `v` lies within the range in which quantities are stored.
pub open spec fn bounded(v: int) -> bool {
    -LIMIT <= v <= LIMIT
}

/// `v` cut off above at `hi` and then below at `lo`.
pub open spec fn spec_clamp(v: int, lo: int, hi: int) -> int {
    let capped = if v > hi { hi } else { v };
    if capped < lo { lo } else { capped }
}

/// Integer division that rounds toward zero, for a positive divisor.
pub open spec fn toward_zero(a: int, d: int) -> int
    recommends
        d > 0,
{
    if a >= 0 { a / d } else { -((-a) / d) }
}

/// The saturating sum of two quantities.
pub open spec fn spec_sum(a: i64, b: i64) -> i64 {
    spec_clamp(a + b, -LIMIT as int, LIMIT as int) as i64
}

/// The saturating fixed-point product: `a * b / 1000`, rounded toward zero.
pub open spec fn spec_product(a: i64, b: i64) -> i64 {
    spec_clamp(toward_zero(a * b, ONE as int), -LIMIT as int, LIMIT as int) as i64
}

/// `r` is the integer square root of `n`, rounded down.
pub open spec fn is_root(n: nat, r: nat) -> bool {
    r * r <= n < (r + 1) * (r + 1)
}

/// The integer square root of `n`, rounded down.
pub open spec fn spec_root(n: nat) -> nat {
    choose|r: nat| is_root(n, r)
}

/// A number has at most one rounded-down square root.
pub proof fn lemma_root_unique(n: nat, r: nat)
    requires
        is_root(n, r),
    ensures
        spec_root(n) == r,
{
    let c = spec_root(n);
    assert(is_root(n, c));
    if c < r {
        assert((c + 1) * (c + 1) <= r * r) by (nonlinear_arith)
            requires
                c + 1 <= r,
        ;
    } else if r < c {
        assert((r + 1) * (r + 1) <= c * c) by (nonlinear_arith)
            requires
                r + 1 <= c,
        ;
    }
}

/// Cuts `v` off above at `hi` and then below at `lo`.
pub fn clamp(v: i64, lo: i64, hi: i64) -> (r: i64)
    ensures
        r == spec_clamp(v as int, lo as int, hi as int),
{
    let capped: i64 = if v > hi { hi } else { v };
    if capped < lo { lo } else { capped }
}

/// Adds two quantities, stopping at the limit.
pub fn sum(a: i64, b: i64) -> (r: i64)
    ensures
        r == spec_sum(a, b),
        bounded(r as int),
{
    let wide: i128 = a as i128 + b as i128;
    if wide > LIMIT as i128 {
        LIMIT
    } else if wide < -(LIMIT as i128) {
        -LIMIT
    } else {
        wide as i64
    }
}

/// Multiplies two quantities, rounding toward zero and stopping at the limit.
pub fn product(a: i64, b: i64) -> (r: i64)
    ensures
        r == spec_product(a, b),
        bounded(r as int),
{
    assert(-0x4000_0000_0000_0000_0000_0000_0000_0000 <= a * b
        <= 0x4000_0000_0000_0000_0000_0000_0000_0000) by (nonlinear_arith)
        requires
            -0x8000_0000_0000_0000 <= a <= 0x8000_0000_0000_0000,
            -0x8000_0000_0000_0000 <= b <= 0x8000_0000_0000_0000,
    ;
    let wide: i128 = (a as i128) * (b as i128);
    let scaled: i128 = wide / (ONE as i128);
    if scaled > LIMIT as i128 {
        LIMIT
    } else if scaled < -(LIMIT as i128) {
        -LIMIT
    } else {
        scaled as i64
    }
}

/// The integer square root, rounded down, found by bisection.
pub fn root(n: u64) -> (r: u64)
    ensures
        r == spec_root(n as nat),
        is_root(n as nat, r as nat),
        r < 0x1_0000_0000,
{
    let mut lo: u64 = 0;
    let mut hi: u64 = 0x1_0000_0000;
    assert(n < hi * hi) by (nonlinear_arith)
        requires
            hi == 0x1_0000_0000,
            n < 0x1_0000_0000_0000_0000,
    ;
    while hi - lo > 1
        invariant
            lo < hi <= 0x1_0000_0000,
            lo * lo <= n < hi * hi,
        decreases hi - lo,
    {
        let mid: u64 = lo + (hi - lo) / 2;
        assert(mid * mid < 0x1_0000_0000_0000_0000) by (nonlinear_arith)
            requires
                mid < 0x1_0000_0000,
        ;
        if mid * mid <= n {
            lo = mid;
        } else {
            hi = mid;
        }
    }
    proof {
        lemma_root_unique(n as nat, lo as nat);
    }
    lo
}

} // verus!
