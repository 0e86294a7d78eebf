//! Reserve lending between groups.

use sorosusu::address::Address;
use sorosusu::susu_lending::{LoanTerms, SusuLending};
use sorosusu::types::Rejection;

fn addr(s: &str) -> Address {
    Address::new(s.to_string())
}

#[test]
fn lend_refused_below_reliability_seventy() {
    let (l, b) = (addr("GL"), addr("GB"));
    let r = SusuLending::lend_reserve(&l, &b, Some(69), Some(1_000), None, 10, 5, 100, 0);
    assert_eq!(r.err(), Some(Rejection::ReliabilityTooLow));
    let r = SusuLending::lend_reserve(&l, &b, None, Some(1_000), None, 10, 5, 100, 0);
    assert_eq!(r.err(), Some(Rejection::ReliabilityTooLow));
}

#[test]
fn lend_refused_without_reserve() {
    let (l, b) = (addr("GL"), addr("GB"));
    let r = SusuLending::lend_reserve(&l, &b, Some(70), Some(9), None, 10, 5, 100, 0);
    assert_eq!(r.err(), Some(Rejection::InsufficientReserve));
    let r = SusuLending::lend_reserve(&l, &b, Some(70), None, None, 1, 5, 100, 0);
    assert_eq!(r.err(), Some(Rejection::InsufficientReserve));
}

#[test]
fn lend_moves_amount_and_records_terms() {
    let (l, b) = (addr("GL"), addr("GB"));
    let o = SusuLending::lend_reserve(&l, &b, Some(80), Some(1_000), Some(5), 100, 10, 1_000, 50)
        .unwrap();
    assert_eq!(o.lender_reserve, 900);
    assert_eq!(o.borrower_reserve, 105);
    assert_eq!(
        o.loan,
        LoanTerms { amount: 100, interest_rate: 10, duration: 1_000, start_time: 50 }
    );
    assert_eq!(o.lender_reserve + o.borrower_reserve, 1_005);
}

#[test]
fn lend_to_self_leaves_reserve_unchanged() {
    let l = addr("GL");
    let o = SusuLending::lend_reserve(&l, &l.clone(), Some(80), Some(1_000), Some(123), 100, 10, 1_000, 0)
        .unwrap();
    assert_eq!(o.lender_reserve, 1_000);
    assert_eq!(o.borrower_reserve, 1_000);
}

#[test]
fn repay_with_simple_interest() {
    let (l, b) = (addr("GL"), addr("GB"));
    let loan = LoanTerms { amount: 100, interest_rate: 10, duration: 1_000, start_time: 50 };
    // 500 s of 1000 s at 10%: 5 of interest.
    let r = SusuLending::repay_loan(&l, &b, loan, Some(900), Some(105), 550).unwrap();
    assert_eq!(r.total_due, 105);
    assert_eq!(r.borrower_reserve, 0);
    assert_eq!(r.lender_reserve, 1_005);
}

#[test]
fn repay_refused_when_borrower_short() {
    let (l, b) = (addr("GL"), addr("GB"));
    let loan = LoanTerms { amount: 100, interest_rate: 10, duration: 1_000, start_time: 50 };
    let r = SusuLending::repay_loan(&l, &b, loan, Some(900), Some(104), 550);
    assert_eq!(r.err(), Some(Rejection::BorrowerCannotRepay));
}

#[test]
fn repay_interest_rounds_toward_zero() {
    let (l, b) = (addr("GL"), addr("GB"));
    let loan = LoanTerms { amount: 3, interest_rate: 10, duration: 7, start_time: 0 };
    // 3 * 10 * 6 / 700 = 0.257...: no interest yet.
    let r = SusuLending::repay_loan(&l, &b, loan, None, Some(3), 6).unwrap();
    assert_eq!(r.total_due, 3);
}

#[test]
fn lend_then_repay_at_once_restores_reserves() {
    let (l, b) = (addr("GL"), addr("GB"));
    let o = SusuLending::lend_reserve(&l, &b, Some(99), Some(700), Some(30), 250, 12, 86_400, 1_000)
        .unwrap();
    let r = SusuLending::repay_loan(
        &l,
        &b,
        o.loan,
        Some(o.lender_reserve),
        Some(o.borrower_reserve),
        1_000,
    )
    .unwrap();
    assert_eq!(r.lender_reserve, 700);
    assert_eq!(r.borrower_reserve, 30);
}

#[test]
fn later_repayment_owes_more_interest() {
    let (l, b) = (addr("GL"), addr("GB"));
    let loan = LoanTerms { amount: 10_000, interest_rate: 12, duration: 1_000, start_time: 0 };
    let mut last = 0;
    for now in [0u64, 100, 250, 999, 1_000, 5_000] {
        let r = SusuLending::repay_loan(&l, &b, loan, None, Some(1_000_000), now).unwrap();
        assert!(r.total_due >= last);
        last = r.total_due;
    }
    // A whole duration owes the full rate: 12% of 10,000.
    let r = SusuLending::repay_loan(&l, &b, loan, None, Some(1_000_000), 1_000).unwrap();
    assert_eq!(r.total_due, 11_200);
}

#[test]
fn repay_to_self_leaves_reserve_unchanged() {
    let l = addr("GL");
    let loan = LoanTerms { amount: 100, interest_rate: 10, duration: 100, start_time: 0 };
    let r = SusuLending::repay_loan(&l, &l.clone(), loan, Some(7), Some(500), 100).unwrap();
    assert_eq!(r.total_due, 110);
    assert_eq!(r.borrower_reserve, 500);
    assert_eq!(r.lender_reserve, 500);
}

#[test]
fn fits_checks_flag_overflowing_inputs() {
    let (l, b) = (addr("GL"), addr("GB"));
    assert!(SusuLending::lend_fits(&l, &b, Some(80), Some(1_000), Some(5), 100));
    assert!(!SusuLending::lend_fits(&l, &b, Some(80), Some(1_000), Some(i128::MAX), 100));
    // Refused loans fit: nothing is computed.
    assert!(SusuLending::lend_fits(&l, &b, Some(1), Some(1_000), Some(i128::MAX), 100));
    let loan = LoanTerms { amount: 100, interest_rate: 10, duration: 1_000, start_time: 50 };
    assert!(SusuLending::repay_fits(&l, &b, loan, Some(900), Some(105), 550));
    assert!(!SusuLending::repay_fits(&l, &b, loan, Some(900), Some(105), 49));
    let no_duration = LoanTerms { duration: 0, ..loan };
    assert!(!SusuLending::repay_fits(&l, &b, no_duration, Some(900), Some(105), 550));
    let huge = LoanTerms { amount: i128::MAX / 2, interest_rate: 4, ..loan };
    assert!(!SusuLending::repay_fits(&l, &b, huge, None, None, 550));
    assert!(!SusuLending::repay_fits(&l, &b, loan, Some(i128::MAX), Some(105), 550));
}
