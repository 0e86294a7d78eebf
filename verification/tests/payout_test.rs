//! Rotating payouts, deferred tranches, claims and clawbacks.

use sorosusu::address::Address;
use sorosusu::types::{CircleInfo, Member, MemberStatus, Rejection, TrancheStatus};
use sorosusu::SoroSusu;

fn addr(s: &str) -> Address {
    Address::new(s.to_string())
}

/// A circle with the given contribution and the given members joined in order.
fn circle_with(amount: i128, members: &[&str]) -> (CircleInfo, Vec<Member>) {
    let created = SoroSusu::create_circle(
        None,
        addr("GCREATOR"),
        amount,
        10,
        addr("CTOKEN"),
        604_800,
        0,
        1_700_000_000,
    );
    let mut circle = created.circle;
    let mut records = Vec::new();
    for m in members {
        let joined = SoroSusu::join_circle(circle, addr(m), false, false).unwrap();
        circle = joined.circle;
        records.push(joined.member);
    }
    (circle, records)
}

#[test]
fn distribute_payout_splits_pot_seventy_fifteen_fifteen() {
    let (circle, _) = circle_with(1_000, &["GA", "GB", "GC"]);
    let d = SoroSusu::distribute_payout(circle, 1);
    assert_eq!(d.payout.to, addr("GA"));
    assert_eq!(d.payout.token, addr("CTOKEN"));
    assert_eq!(d.payout.amount, 2_100);
    assert_eq!(d.schedule.total_pot, 3_000);
    assert_eq!(d.schedule.immediate_payout, 2_100);
    assert_eq!(d.schedule.winner, addr("GA"));
    assert_eq!(d.schedule.circle_id, 1);
    assert_eq!(d.schedule.tranches.len(), 2);
    assert_eq!(d.schedule.tranches[0].amount, 450);
    assert_eq!(d.schedule.tranches[0].unlock_round, 2);
    assert_eq!(d.schedule.tranches[1].amount, 450);
    assert_eq!(d.schedule.tranches[1].unlock_round, 3);
    assert_eq!(d.schedule.tranches[0].status, TrancheStatus::Pending);
    assert_eq!(d.circle.current_recipient_index, 1);
    assert_eq!(d.circle.round_number, 1);
    assert!(!d.circle.is_round_finalized);
}

#[test]
fn distribute_payout_conserves_odd_pots() {
    for (amount, members) in [
        (333i128, vec!["GA", "GB", "GC"]),
        (7, vec!["GA"]),
        (1, vec!["GA", "GB"]),
        (-7, vec!["GA"]),
    ] {
        let (circle, _) = circle_with(amount, &members);
        let pot = amount * members.len() as i128;
        let d = SoroSusu::distribute_payout(circle, 9);
        let total: i128 =
            d.payout.amount + d.schedule.tranches[0].amount + d.schedule.tranches[1].amount;
        assert_eq!(total, pot);
    }
}

#[test]
fn distribute_payout_rounds_toward_zero() {
    let (circle, _) = circle_with(7, &["GA"]);
    let d = SoroSusu::distribute_payout(circle, 1);
    assert_eq!(d.payout.amount, 4);
    assert_eq!(d.schedule.tranches[0].amount, 1);
    assert_eq!(d.schedule.tranches[1].amount, 2);

    let (circle, _) = circle_with(-7, &["GA"]);
    let d = SoroSusu::distribute_payout(circle, 1);
    assert_eq!(d.payout.amount, -4);
    assert_eq!(d.schedule.tranches[0].amount, -1);
    assert_eq!(d.schedule.tranches[1].amount, -2);
}

#[test]
fn pot_rotates_through_every_member_once() {
    let (mut circle, _) = circle_with(100, &["GA", "GB", "GC"]);
    let mut paid = Vec::new();
    for _ in 0..3 {
        let d = SoroSusu::distribute_payout(circle, 1);
        paid.push(d.payout.to.strkey.clone());
        circle = d.circle;
    }
    assert_eq!(paid, vec!["GA".to_string(), "GB".to_string(), "GC".to_string()]);
    assert_eq!(circle.current_recipient_index, 0);
    assert_eq!(circle.round_number, 3);
}

#[test]
fn tranche_locked_until_unlock_round() {
    let (circle, members) = circle_with(1_000, &["GA", "GB", "GC"]);
    let d = SoroSusu::distribute_payout(circle, 1);
    let res = SoroSusu::claim_tranche(addr("GA"), &members[0], &d.circle, d.schedule, 0);
    assert_eq!(res.err(), Some(Rejection::TrancheLocked { unlock_round: 2 }));
}

#[test]
fn tranche_claimed_once_after_unlock() {
    let (circle, members) = circle_with(1_000, &["GA", "GB", "GC"]);
    let d = SoroSusu::distribute_payout(circle, 1);
    let schedule = d.schedule;
    let d2 = SoroSusu::distribute_payout(d.circle, 1);
    // The circle is now at round 2: the first tranche is unlocked.
    assert_eq!(d2.circle.round_number, 2);
    let claim = SoroSusu::claim_tranche(addr("GA"), &members[0], &d2.circle, schedule, 0).unwrap();
    assert_eq!(claim.payout.amount, 450);
    assert_eq!(claim.payout.to, addr("GA"));
    assert_eq!(claim.schedule.tranches[0].status, TrancheStatus::Claimed);
    assert_eq!(claim.schedule.tranches[1].status, TrancheStatus::Pending);
    // The second tranche is still locked.
    let again = SoroSusu::claim_tranche(
        addr("GA"),
        &members[0],
        &d2.circle,
        claim.schedule.clone(),
        1,
    );
    assert_eq!(again.err(), Some(Rejection::TrancheLocked { unlock_round: 3 }));
    // The first tranche cannot be claimed twice.
    let twice = SoroSusu::claim_tranche(addr("GA"), &members[0], &d2.circle, claim.schedule, 0);
    assert_eq!(twice.err(), Some(Rejection::TrancheNotPending));
}

#[test]
fn defaulted_member_cannot_claim() {
    let (circle, members) = circle_with(1_000, &["GA", "GB"]);
    let d = SoroSusu::distribute_payout(circle, 1);
    let defaulted = SoroSusu::mark_member_defaulted(members[0].clone());
    assert_eq!(defaulted.status, MemberStatus::Defaulted);
    let res = SoroSusu::claim_tranche(addr("GA"), &defaulted, &d.circle, d.schedule, 0);
    assert_eq!(res.err(), Some(Rejection::DefaultedMemberCannotClaim));
}

#[test]
fn clawback_takes_pending_tranches_only() {
    let (circle, members) = circle_with(1_000, &["GA", "GB", "GC"]);
    let d = SoroSusu::distribute_payout(circle, 1);
    let schedule = d.schedule;
    let d2 = SoroSusu::distribute_payout(d.circle, 1);
    let claim = SoroSusu::claim_tranche(addr("GA"), &members[0], &d2.circle, schedule, 0).unwrap();
    let clawed = SoroSusu::execute_tranche_clawback(claim.schedule);
    assert_eq!(clawed.tranches[0].status, TrancheStatus::Claimed);
    assert_eq!(clawed.tranches[1].status, TrancheStatus::ClawedBack);
    assert_eq!(clawed.tranches[1].amount, 450);
    assert_eq!(clawed.tranches[1].unlock_round, 3);
    assert_eq!(clawed.total_pot, 3_000);
    let twice = SoroSusu::execute_tranche_clawback(clawed.clone());
    assert_eq!(twice, clawed);
    let d3 = SoroSusu::distribute_payout(d2.circle, 1);
    let res = SoroSusu::claim_tranche(addr("GA"), &members[0], &d3.circle, clawed, 1);
    assert_eq!(res.err(), Some(Rejection::TrancheNotPending));
}

#[test]
fn rotation_stays_consistent_through_joins_and_payouts() {
    let (mut circle, _) = circle_with(10, &["GA"]);
    for (step, name) in ["GB", "GC", "GD"].iter().enumerate() {
        let d = SoroSusu::distribute_payout(circle, 1);
        circle = d.circle;
        assert!(circle.current_recipient_index < circle.member_count);
        assert_eq!(circle.member_addresses.len() as u32, circle.member_count);
        circle = SoroSusu::join_circle(circle, addr(name), false, false).unwrap().circle;
        assert_eq!(circle.member_count as usize, step + 2);
        assert!(circle.current_recipient_index < circle.member_count);
    }
}

#[test]
fn can_distribute_payout_needs_members_and_room() {
    let (empty, _) = circle_with(100, &[]);
    assert!(!SoroSusu::can_distribute_payout(&empty));
    let (circle, _) = circle_with(100, &["GA", "GB"]);
    assert!(SoroSusu::can_distribute_payout(&circle));
    let mut huge = circle.clone();
    huge.contribution_amount = i128::MAX / 2;
    assert!(!SoroSusu::can_distribute_payout(&huge));
    let mut late = circle.clone();
    late.round_number = u32::MAX - 2;
    assert!(!SoroSusu::can_distribute_payout(&late));
    let mut lost = circle;
    lost.current_recipient_index = 2;
    assert!(!SoroSusu::can_distribute_payout(&lost));
}
