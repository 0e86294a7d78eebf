//! Lending of reserves between savings groups: a lender group moves part of
//! its reserve to a borrower group and is repaid with simple interest.
use vstd::prelude::*;

use crate::address::Address;
use crate::arith::trunc_div;
use crate::types::Rejection;

verus! {

/// Lending logic between susu groups.
pub struct SusuLending;

/// The reliability index a borrower must reach before it may borrow.
pub const MIN_RELIABILITY: i128 = 70;

/// The terms of an outstanding loan. `interest_rate` is the percentage of
/// `amount` owed as interest over `duration` seconds, accruing linearly.
#[derive(Copy, Clone, Debug, PartialEq, Eq, Structural)]
pub struct LoanTerms {
    pub amount: i128,
    pub interest_rate: i128,
    pub duration: u64,
    pub start_time: u64,
}

/// The reserves of the two groups after a loan was made, and its terms.
#[derive(Copy, Clone, Debug, PartialEq, Eq, Structural)]
pub struct LoanOutcome {
    pub lender_reserve: i128,
    pub borrower_reserve: i128,
    pub loan: LoanTerms,
}

/// The reserves of the two groups after a loan was repaid, and the amount
/// that moved from the borrower to the lender.
#[derive(Copy, Clone, Debug, PartialEq, Eq, Structural)]
pub struct Repayment {
    pub lender_reserve: i128,
    pub borrower_reserve: i128,
    pub total_due: i128,
}

/// A stored value, or zero where nothing is stored.
pub open spec fn or_zero(v: Option<i128>) -> int {
    match v {
        Some(x) => x as int,
        None => 0,
    }
}

/// Reserves (lender, borrower) after `amount` moves from the lender to the
/// borrower. The lender's reserve is debited first; when both are the same
/// group the credit lands on the debited reserve, which ends unchanged.
pub open spec fn reserves_after_move(l: int, b: int, amount: int, same: bool) -> (int, int) {
    let l1 = l - amount;
    let b0 = if same { l1 } else { b };
    let b1 = b0 + amount;
    (if same { b1 } else { l1 }, b1)
}

/// Whether moving `amount` from a reserve `l` to a reserve `b` keeps every
/// intermediate balance within the `i128` range.
pub open spec fn move_fits(l: int, b: int, amount: int, same: bool) -> bool {
    let l1 = l - amount;
    let b0 = if same { l1 } else { b };
    &&& i128::MIN <= l1 <= i128::MAX
    &&& i128::MIN <= b0 + amount <= i128::MAX
}

/// Interest owed on a loan at time `now`: `amount * rate * elapsed /
/// (duration * 100)`, rounded toward zero.
pub open spec fn loan_interest(loan: LoanTerms, now: u64) -> int {
    trunc_div(
        loan.amount * loan.interest_rate * (now - loan.start_time),
        loan.duration * 100,
    )
}

/// Whether the interest of a loan at time `now` is defined and computable
/// within the `i128` range, with the total due in range too.
pub open spec fn interest_computable(loan: LoanTerms, now: u64) -> bool {
    &&& now >= loan.start_time
    &&& loan.duration > 0
    &&& i128::MIN <= loan.amount * loan.interest_rate <= i128::MAX
    &&& i128::MIN <= loan.amount * loan.interest_rate * (now - loan.start_time) <= i128::MAX
    &&& i128::MIN <= loan.amount + loan_interest(loan, now) <= i128::MAX
}

impl SusuLending {
    /// Whether a loan of `amount` can be made without leaving the `i128`
    /// range, in the case where it is not refused.
    pub fn lend_fits(
        lender: &Address,
        borrower: &Address,
        reliability: Option<i128>,
        lender_reserve: Option<i128>,
        borrower_reserve: Option<i128>,
        amount: i128,
    ) -> (b: bool)
        ensures
            b == (or_zero(reliability) >= 70 && or_zero(lender_reserve) >= amount ==> move_fits(
                or_zero(lender_reserve),
                or_zero(borrower_reserve),
                amount as int,
                lender@ == borrower@,
            )),
    {
        let r = match reliability {
            Some(r) => r,
            None => 0,
        };
        let l = match lender_reserve {
            Some(x) => x,
            None => 0,
        };
        if r < MIN_RELIABILITY || l < amount {
            return true;
        }
        match l.checked_sub(amount) {
            None => false,
            Some(l1) => {
                let b0 = if lender.same_as(borrower) {
                    l1
                } else {
                    match borrower_reserve {
                        Some(x) => x,
                        None => 0,
                    }
                };
                b0.checked_add(amount).is_some()
            },
        }
    }

    /// Whether a loan can be repaid at `now` without dividing by zero, going
    /// back in time or leaving the `i128` range, in the case where the
    /// repayment is not refused.
    pub fn repay_fits(
        lender: &Address,
        borrower: &Address,
        loan: LoanTerms,
        lender_reserve: Option<i128>,
        borrower_reserve: Option<i128>,
        now: u64,
    ) -> (b: bool)
        ensures
            b == (interest_computable(loan, now) && (or_zero(borrower_reserve) >= loan.amount
                + loan_interest(loan, now) ==> move_fits(
                or_zero(borrower_reserve),
                or_zero(lender_reserve),
                loan.amount + loan_interest(loan, now),
                lender@ == borrower@,
            ))),
    {
        if now < loan.start_time || loan.duration == 0 {
            return false;
        }
        let elapsed = now - loan.start_time;
        let product = match loan.amount.checked_mul(loan.interest_rate) {
            Some(p) => p,
            None => return false,
        };
        let numerator = match product.checked_mul(elapsed as i128) {
            Some(n) => n,
            None => return false,
        };
        let interest = numerator / ((loan.duration as i128) * 100);
        let due = match loan.amount.checked_add(interest) {
            Some(d) => d,
            None => return false,
        };
        let b = match borrower_reserve {
            Some(x) => x,
            None => 0,
        };
        if b < due {
            return true;
        }
        match b.checked_sub(due) {
            None => false,
            Some(b1) => {
                let l0 = if lender.same_as(borrower) {
                    b1
                } else {
                    match lender_reserve {
                        Some(x) => x,
                        None => 0,
                    }
                };
                l0.checked_add(due).is_some()
            },
        }
    }

    /// Lends `amount` from the lender group's reserve to the borrower
    /// group's. Refused when the recorded reliability index (zero when none
    /// is recorded) is below 70, or when the lender's reserve (zero when
    /// none) is below `amount`. Otherwise the amount moves between the
    /// reserves and the loan is recorded as starting at `now`.
    pub fn lend_reserve(
        lender: &Address,
        borrower: &Address,
        reliability: Option<i128>,
        lender_reserve: Option<i128>,
        borrower_reserve: Option<i128>,
        amount: i128,
        interest_rate: i128,
        duration: u64,
        now: u64,
    ) -> (res: Result<LoanOutcome, Rejection>)
        requires
            or_zero(reliability) >= 70 && or_zero(lender_reserve) >= amount ==> move_fits(
                or_zero(lender_reserve),
                or_zero(borrower_reserve),
                amount as int,
                lender@ == borrower@,
            ),
        ensures
            or_zero(reliability) < 70 ==> res == Err::<LoanOutcome, Rejection>(
                Rejection::ReliabilityTooLow,
            ),
            or_zero(reliability) >= 70 && or_zero(lender_reserve) < amount ==> res == Err::<
                LoanOutcome,
                Rejection,
            >(Rejection::InsufficientReserve),
            or_zero(reliability) >= 70 && or_zero(lender_reserve) >= amount ==> (res matches Ok(o)
                && {
                let after = reserves_after_move(
                    or_zero(lender_reserve),
                    or_zero(borrower_reserve),
                    amount as int,
                    lender@ == borrower@,
                );
                &&& o.lender_reserve == after.0
                &&& o.borrower_reserve == after.1
                &&& o.loan == (LoanTerms { amount, interest_rate, duration, start_time: now })
            }),
    {
        let reliability = match reliability {
            Some(r) => r,
            None => 0,
        };
        if reliability < MIN_RELIABILITY {
            return Err(Rejection::ReliabilityTooLow);
        }
        let lender_before = match lender_reserve {
            Some(r) => r,
            None => 0,
        };
        if lender_before < amount {
            return Err(Rejection::InsufficientReserve);
        }
        let lender_after = lender_before - amount;
        let same = lender.same_as(borrower);
        let borrower_before = if same {
            lender_after
        } else {
            match borrower_reserve {
                Some(r) => r,
                None => 0,
            }
        };
        let borrower_after = borrower_before + amount;
        Ok(
            LoanOutcome {
                lender_reserve: if same { borrower_after } else { lender_after },
                borrower_reserve: borrower_after,
                loan: LoanTerms { amount, interest_rate, duration, start_time: now },
            },
        )
    }

    /// Repays a loan at time `now`: the amount due is the loan amount plus
    /// its interest (see `loan_interest`). Refused when the borrower's
    /// reserve (zero when none) is below the amount due; otherwise the
    /// amount due moves from the borrower's reserve to the lender's.
    pub fn repay_loan(
        lender: &Address,
        borrower: &Address,
        loan: LoanTerms,
        lender_reserve: Option<i128>,
        borrower_reserve: Option<i128>,
        now: u64,
    ) -> (res: Result<Repayment, Rejection>)
        requires
            interest_computable(loan, now),
            or_zero(borrower_reserve) >= loan.amount + loan_interest(loan, now) ==> move_fits(
                or_zero(borrower_reserve),
                or_zero(lender_reserve),
                loan.amount + loan_interest(loan, now),
                lender@ == borrower@,
            ),
        ensures
            ({
                let due = loan.amount + loan_interest(loan, now);
                &&& or_zero(borrower_reserve) < due ==> res == Err::<Repayment, Rejection>(
                    Rejection::BorrowerCannotRepay,
                )
                &&& or_zero(borrower_reserve) >= due ==> (res matches Ok(r) && {
                    let after = reserves_after_move(
                        or_zero(borrower_reserve),
                        or_zero(lender_reserve),
                        due,
                        lender@ == borrower@,
                    );
                    &&& r.borrower_reserve == after.0
                    &&& r.lender_reserve == after.1
                    &&& r.total_due == due
                })
            }),
    {
        let elapsed = now - loan.start_time;
        let numerator = loan.amount * loan.interest_rate * (elapsed as i128);
        let interest = numerator / ((loan.duration as i128) * 100);
        let total_due = loan.amount + interest;
        let borrower_before = match borrower_reserve {
            Some(r) => r,
            None => 0,
        };
        if borrower_before < total_due {
            return Err(Rejection::BorrowerCannotRepay);
        }
        let borrower_after = borrower_before - total_due;
        let same = lender.same_as(borrower);
        let lender_before = if same {
            borrower_after
        } else {
            match lender_reserve {
                Some(r) => r,
                None => 0,
            }
        };
        let lender_after = lender_before + total_due;
        Ok(
            Repayment {
                lender_reserve: lender_after,
                borrower_reserve: if same { lender_after } else { borrower_after },
                total_due,
            },
        )
    }
}

/// Moving an amount between two reserves keeps their total: lending and
/// repaying neither create nor destroy reserve funds. Between a group and
/// itself the reserve is left unchanged.
pub proof fn lemma_move_conserves_total(l: int, b: int, amount: int, same: bool)
    ensures
        !same ==> reserves_after_move(l, b, amount, same).0 + reserves_after_move(
            l,
            b,
            amount,
            same,
        ).1 == l + b,
        same ==> reserves_after_move(l, b, amount, same).0 == l && reserves_after_move(
            l,
            b,
            amount,
            same,
        ).1 == l,
{
}

/// A loan repaid at the instant it was made owes no interest, so lending
/// and then repaying at once leaves both reserves exactly as they were.
pub proof fn lemma_immediate_repay_restores_reserves(
    l: int,
    b: int,
    amount: i128,
    interest_rate: i128,
    duration: u64,
    now: u64,
    same: bool,
)
    requires
        duration > 0,
    ensures
        ({
            let loan = LoanTerms { amount, interest_rate, duration, start_time: now };
            let lent = reserves_after_move(l, b, amount as int, same);
            let repaid = reserves_after_move(
                lent.1,
                lent.0,
                amount + loan_interest(loan, now),
                same,
            );
            &&& loan_interest(loan, now) == 0
            &&& !same ==> repaid.1 == l && repaid.0 == b
            &&& same ==> repaid.1 == l && repaid.0 == l
        }),
{
    let loan = LoanTerms { amount, interest_rate, duration, start_time: now };
    assert(loan.amount * loan.interest_rate * (now - now) == 0) by (nonlinear_arith);
    assert(0int / (duration * 100) == 0) by (nonlinear_arith)
        requires duration > 0;
}

/// With a non-negative amount and rate, what a borrower owes never falls
/// as time passes and never drops below the principal: a later repayment
/// never owes less interest, nor less in total.
pub proof fn lemma_interest_monotone(loan: LoanTerms, t1: u64, t2: u64)
    requires
        loan.start_time <= t1 <= t2,
        loan.duration > 0,
        loan.amount >= 0,
        loan.interest_rate >= 0,
    ensures
        0 <= loan_interest(loan, t1) <= loan_interest(loan, t2),
        loan.amount <= loan.amount + loan_interest(loan, t1) <= loan.amount + loan_interest(
            loan,
            t2,
        ),
{
    let p = loan.amount * loan.interest_rate;
    assert(p >= 0) by (nonlinear_arith)
        requires p == loan.amount * loan.interest_rate, loan.amount >= 0, loan.interest_rate >= 0;
    let e1 = t1 - loan.start_time;
    let e2 = t2 - loan.start_time;
    assert(0 <= p * e1 <= p * e2) by (nonlinear_arith)
        requires p >= 0, 0 <= e1, e1 <= e2;
    let d = loan.duration * 100;
    assert((p * e1) / d <= (p * e2) / d) by (nonlinear_arith)
        requires 0 <= p * e1 <= p * e2, d > 0;
    assert((p * e1) / d >= 0) by (nonlinear_arith)
        requires 0 <= p * e1, d > 0;
}

/// Between two different groups, a move debits the payer's reserve by the
/// amount and credits the payee's by the same amount.
pub proof fn lemma_move_direction(l: int, b: int, amount: int)
    ensures
        reserves_after_move(l, b, amount, false).0 == l - amount,
        reserves_after_move(l, b, amount, false).1 == b + amount,
{
}

/// Over the whole duration a loan owes its full rate: `amount * rate / 100`
/// rounded toward zero; nothing has accrued at its start.
pub proof fn lemma_interest_over_duration(loan: LoanTerms)
    requires
        loan.duration > 0,
        loan.start_time + loan.duration <= u64::MAX,
    ensures
        loan_interest(loan, (loan.start_time + loan.duration) as u64) == trunc_div(
            loan.amount * loan.interest_rate,
            100,
        ),
        loan_interest(loan, loan.start_time) == 0,
{
    let p = loan.amount * loan.interest_rate;
    let d = loan.duration as int;
    let t = (loan.start_time + loan.duration) as u64;
    assert(t - loan.start_time == d);
    let ap = if p >= 0 { p } else { -p };
    let q = ap / 100;
    let r = ap % 100;
    vstd::arithmetic::div_mod::lemma_fundamental_div_mod(ap, 100);
    assert(ap * d == q * (d * 100) + r * d) by (nonlinear_arith)
        requires ap == 100 * q + r;
    assert(0 <= r * d < d * 100) by (nonlinear_arith)
        requires 0 <= r < 100, d > 0;
    vstd::arithmetic::div_mod::lemma_fundamental_div_mod_converse(ap * d, d * 100, q, r * d);
    if p >= 0 {
        assert(p * d == ap * d);
    } else {
        assert(-(p * d) == ap * d) by (nonlinear_arith) requires ap == -p;
    }
    assert(p * 0 == 0);
    assert(0int / (d * 100) == 0) by (nonlinear_arith) requires d > 0;
}

} // verus!
