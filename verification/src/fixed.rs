//! Whole-number arithmetic shared by the modules: sums that stop at the
//! largest value, and division that rounds toward zero.

use vstd::prelude::*;

verus! {

/// `a / b`, rounded toward zero.
pub open spec fn div_toward_zero(a: int, b: int) -> int {
    if a >= 0 {
        a / b
    } else {
        -((-a) / b)
    }
}

/// `a + b`, or the largest value where the sum does not fit.
pub open spec fn saturating_sum(a: u64, b: u64) -> u64 {
    if a + b > u64::MAX {
        u64::MAX
    } else {
        (a + b) as u64
    }
}

/// `a + b`, or the largest value where the sum does not fit.
pub fn add_saturating(a: u64, b: u64) -> (sum: u64)
    ensures
        sum == saturating_sum(a, b),
{
    if b > u64::MAX - a {
        u64::MAX
    } else {
        a + b
    }
}

/// A whole multiple of `b` divided by `b` gives the factor back, whatever its sign.
pub proof fn lemma_div_toward_zero_of_multiple(q: int, b: int)
    requires
        b > 0,
    ensures
        div_toward_zero(q * b, b) == q,
{
    if q >= 0 {
        assert(q * b >= 0) by (nonlinear_arith)
            requires
                q >= 0,
                b > 0,
        ;
        assert((q * b) / b == q) by (nonlinear_arith)
            requires
                b > 0,
        ;
    } else {
        assert(q * b < 0) by (nonlinear_arith)
            requires
                q < 0,
                b > 0,
        ;
        assert(-(q * b) == (-q) * b) by (nonlinear_arith);
        assert(((-q) * b) / b == -q) by (nonlinear_arith)
            requires
                b > 0,
        ;
    }
}

} // verus!
