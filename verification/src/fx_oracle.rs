//! Fiat equivalents of asset amounts from stored FX rates.
use vstd::prelude::*;

use crate::arith::trunc_div;

verus! {

/// Consumer of cross-border FX rates (SEP-38). Rates are scaled by 10^6.
pub struct FxOracle;

/// The scale of stored rates: a rate of 1,000,000 is one unit of fiat per
/// unit of asset.
pub const RATE_SCALE: i128 = 1_000_000;

/// The rate stored for a pair, or zero when none is stored.
pub open spec fn rate_or_zero(stored_rate: Option<i128>) -> int {
    match stored_rate {
        Some(r) => r as int,
        None => 0,
    }
}

impl FxOracle {
    /// The stored rate of an asset/fiat pair, zero when none is stored.
    pub fn get_rate(stored_rate: Option<i128>) -> (res: i128)
        ensures
            res == rate_or_zero(stored_rate),
    {
        match stored_rate {
            Some(r) => r,
            None => 0,
        }
    }

    /// The fiat equivalent of `amount` at the stored rate (zero when none):
    /// `amount * rate / 10^6`, rounded toward zero.
    pub fn get_fiat_equivalent(stored_rate: Option<i128>, amount: i128) -> (res: i128)
        requires
            i128::MIN <= amount * rate_or_zero(stored_rate) <= i128::MAX,
        ensures
            res == trunc_div(amount * rate_or_zero(stored_rate), 1_000_000),
    {
        let rate = Self::get_rate(stored_rate);
        (amount * rate) / RATE_SCALE
    }
}

/// With no rate stored every amount is worth nothing; at the unit rate
/// every amount is worth itself.
pub proof fn lemma_fiat_equivalent_scale(amount: i128)
    ensures
        trunc_div(amount * rate_or_zero(None), 1_000_000) == 0,
        trunc_div(amount * rate_or_zero(Some(1_000_000)), 1_000_000) == amount,
{
    assert(amount * 0int == 0) by (nonlinear_arith);
    assert(0int / 1_000_000 == 0);
    if amount >= 0 {
        assert((amount * 1_000_000int) / 1_000_000 == amount) by (nonlinear_arith);
    } else {
        assert((-(amount * 1_000_000int)) / 1_000_000 == -amount) by (nonlinear_arith);
    }
}

} // verus!
