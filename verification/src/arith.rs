//! Integer division as the contracts compute it.
use vstd::prelude::*;

verus! {

/// `a / b` rounded toward zero, as Rust's `/` on signed integers rounds;
/// meant for a positive divisor `b`.
pub open spec fn trunc_div(a: int, b: int) -> int {
    if a >= 0 {
        a / b
    } else {
        -((-a) / b)
    }
}

/// For a positive divisor, truncated division never moves away from zero
/// past its dividend, and keeps the dividend's sign.
pub proof fn lemma_trunc_div_bounds(a: int, b: int)
    requires
        b > 0,
    ensures
        a >= 0 ==> 0 <= trunc_div(a, b) <= a,
        a < 0 ==> a <= trunc_div(a, b) <= 0,
{
    if a >= 0 {
        assert(a / b <= a) by (nonlinear_arith)
            requires a >= 0, b > 0;
        assert(a / b >= 0) by (nonlinear_arith)
            requires a >= 0, b > 0;
    } else {
        assert((-a) / b <= -a) by (nonlinear_arith)
            requires -a > 0, b > 0;
        assert((-a) / b >= 0) by (nonlinear_arith)
            requires -a > 0, b > 0;
    }
}

} // verus!
