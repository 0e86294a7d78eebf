//! Circles and members: creation, joining, contributions and round bookkeeping.

use sorosusu::address::Address;
use sorosusu::circle::InstanceSettings;
use sorosusu::types::{AssetWeight, MemberStatus, Rejection};
use sorosusu::SoroSusu;

fn addr(s: &str) -> Address {
    Address::new(s.to_string())
}

#[test]
fn init_writes_settings_once() {
    let s = SoroSusu::init(false, addr("GADMIN"), 250).unwrap();
    assert_eq!(
        s,
        InstanceSettings { admin: addr("GADMIN"), circle_count: 0, fee_bps: 250 }
    );
    assert!(SoroSusu::init(true, addr("GADMIN"), 250).is_none());
}

#[test]
fn create_circle_numbers_from_stored_count() {
    let first = SoroSusu::create_circle(None, addr("GC"), 500, 5, addr("CT"), 100, 0, 1_000);
    assert_eq!(first.id, 1);
    assert_eq!(first.circle.id, 1);
    assert_eq!(first.circle.deadline_timestamp, 1_100);
    assert_eq!(first.circle.cycle_duration, 100);
    assert_eq!(first.circle.member_count, 0);
    assert!(first.circle.member_addresses.is_empty());
    assert!(first.circle.is_active);
    assert_eq!(first.circle.winners_per_round, 1);
    assert!(first.bond_deposit.is_none());
    let next = SoroSusu::create_circle(Some(41), addr("GC"), 500, 5, addr("CT"), 100, 0, 1_000);
    assert_eq!(next.id, 42);
}

#[test]
fn create_circle_collects_positive_bond() {
    let c = SoroSusu::create_circle(Some(1), addr("GC"), 500, 5, addr("CT"), 100, 77, 0);
    let dep = c.bond_deposit.unwrap();
    assert_eq!(dep.amount, 77);
    assert_eq!(dep.from, addr("GC"));
    assert_eq!(dep.token, addr("CT"));
    assert_eq!(c.bond, 77);
    let neg = SoroSusu::create_circle(Some(1), addr("GC"), 500, 5, addr("CT"), 100, -3, 0);
    assert!(neg.bond_deposit.is_none());
    assert_eq!(neg.bond, -3);
}

#[test]
fn create_basket_circle_pairs_assets_and_weights() {
    let assets = vec![addr("CUSDC"), addr("CXLM")];
    let weights = vec![6_000u32, 4_000, 99];
    let b = SoroSusu::create_basket_circle(Some(2), addr("GC"), 1_000, 5, assets, weights, 60, 10);
    assert_eq!(b.id, 3);
    assert_eq!(b.circle.token, addr("CUSDC"));
    assert_eq!(b.circle.deadline_timestamp, 70);
    assert_eq!(
        b.basket,
        vec![
            AssetWeight { token: addr("CUSDC"), weight_bps: 6_000 },
            AssetWeight { token: addr("CXLM"), weight_bps: 4_000 },
        ]
    );
}

#[test]
fn deposit_basket_collects_weighted_shares() {
    let b = SoroSusu::create_basket_circle(
        None,
        addr("GC"),
        1_001,
        5,
        vec![addr("CUSDC"), addr("CXLM")],
        vec![6_000, 4_000],
        60,
        10,
    );
    let cols = SoroSusu::deposit_basket(&b.circle, &b.basket, &addr("GU"));
    assert_eq!(cols.len(), 2);
    assert_eq!(cols[0].amount, 600);
    assert_eq!(cols[0].token, addr("CUSDC"));
    assert_eq!(cols[1].amount, 400);
    assert_eq!(cols[1].from, addr("GU"));
}

#[test]
fn join_appends_member_with_next_index() {
    let c = SoroSusu::create_circle(None, addr("GC"), 500, 5, addr("CT"), 100, 0, 0).circle;
    let j1 = SoroSusu::join_circle(c, addr("GA"), false, false).unwrap();
    let j2 = SoroSusu::join_circle(j1.circle, addr("GB"), false, false).unwrap();
    assert_eq!(j1.member.index, 0);
    assert_eq!(j2.member.index, 1);
    assert_eq!(j2.member.address, addr("GB"));
    assert_eq!(j2.member.status, MemberStatus::Active);
    assert_eq!(j2.member.tier_multiplier, 1);
    assert_eq!(j2.circle.member_count, 2);
    assert_eq!(j2.circle.member_addresses, vec![addr("GA"), addr("GB")]);
}

#[test]
fn join_large_circle_requires_collateral_or_lien() {
    let c = SoroSusu::create_circle(None, addr("GC"), 10_000_001, 5, addr("CT"), 100, 0, 0).circle;
    let refused = SoroSusu::join_circle(c.clone(), addr("GA"), false, false);
    assert_eq!(refused.err(), Some(Rejection::CollateralRequired));
    assert!(SoroSusu::join_circle(c.clone(), addr("GA"), true, false).is_ok());
    assert!(SoroSusu::join_circle(c.clone(), addr("GA"), false, true).is_ok());
    // The creator needs none.
    assert!(SoroSusu::join_circle(c, addr("GC"), false, false).is_ok());
    // At the threshold itself no collateral is needed.
    let at = SoroSusu::create_circle(None, addr("GC"), 10_000_000, 5, addr("CT"), 100, 0, 0).circle;
    assert!(SoroSusu::join_circle(at, addr("GA"), false, false).is_ok());
}

#[test]
fn deposit_counts_rounds_and_collects() {
    let c = SoroSusu::create_circle(None, addr("GC"), 250, 5, addr("CT"), 100, 0, 0).circle;
    let j = SoroSusu::join_circle(c, addr("GA"), false, false).unwrap();
    let d = SoroSusu::deposit(&j.circle, j.member, addr("GA"), 3, 50).unwrap();
    assert_eq!(d.member.contribution_count, 3);
    assert_eq!(d.member.total_contributions, 750);
    assert!(d.member.has_contributed_current_round);
    assert_eq!(d.collection.amount, 750);
    assert_eq!(d.collection.from, addr("GA"));
    assert_eq!(d.collection.token, addr("CT"));
}

#[test]
fn release_bond_pays_positive_bond_to_creator() {
    let c = SoroSusu::create_circle(None, addr("GC"), 250, 5, addr("CT"), 100, 0, 0).circle;
    let p = SoroSusu::release_bond(Some(40), &c).unwrap();
    assert_eq!(p.amount, 40);
    assert_eq!(p.to, addr("GC"));
    assert!(SoroSusu::release_bond(Some(0), &c).is_none());
    assert!(SoroSusu::release_bond(None, &c).is_none());
}

#[test]
fn recovery_votes_accumulate_bits() {
    let c = SoroSusu::create_circle(None, addr("GC"), 250, 5, addr("CT"), 100, 0, 0).circle;
    let ja = SoroSusu::join_circle(c, addr("GA"), false, false).unwrap();
    let jb = SoroSusu::join_circle(ja.circle, addr("GB"), false, false).unwrap();
    let jc = SoroSusu::join_circle(jb.circle, addr("GC2"), false, false).unwrap();
    let c = SoroSusu::propose_address_change(jc.circle, &jb.member, addr("GOLD"), addr("GNEW"));
    assert_eq!(c.recovery_votes_bitmap, 0b010);
    assert_eq!(c.recovery_old_address, Some(addr("GOLD")));
    assert_eq!(c.recovery_new_address, Some(addr("GNEW")));
    let c = SoroSusu::vote_for_recovery(c, &jc.member);
    assert_eq!(c.recovery_votes_bitmap, 0b110);
    let c = SoroSusu::vote_for_recovery(c, &jc.member);
    assert_eq!(c.recovery_votes_bitmap, 0b110);
    let c = SoroSusu::vote_for_recovery(c, &ja.member);
    assert_eq!(c.recovery_votes_bitmap, 0b111);
}

#[test]
fn claim_pot_pays_whole_pot_and_closes() {
    let c = SoroSusu::create_circle(None, addr("GC"), 250, 5, addr("CT"), 100, 0, 0).circle;
    let j = SoroSusu::join_circle(c, addr("GA"), false, false).unwrap();
    let j = SoroSusu::join_circle(j.circle, addr("GB"), false, false).unwrap();
    let p = SoroSusu::claim_pot(j.circle, addr("GB"));
    assert_eq!(p.payout.amount, 500);
    assert_eq!(p.payout.to, addr("GB"));
    assert!(!p.circle.is_active);
}

#[test]
fn round_bookkeeping() {
    let c = SoroSusu::create_circle(None, addr("GC"), 250, 5, addr("CT"), 100, 0, 0).circle;
    let c = SoroSusu::finalize_round(c, addr("GA"));
    assert!(c.is_round_finalized);
    assert_eq!(c.current_pot_recipient, Some(addr("GA")));
    let c = SoroSusu::configure_batch_payout(c, 4);
    assert_eq!(c.winners_per_round, 4);
    assert!(c.batch_payout_enabled);
    let j = SoroSusu::join_circle(c, addr("GZ"), false, false).unwrap();
    assert_eq!(SoroSusu::reveal_next_winner(&j.circle), addr("GZ"));
}

#[test]
fn anchor_deposit_and_default_update_member() {
    let c = SoroSusu::create_circle(None, addr("GC"), 250, 5, addr("CT"), 100, 0, 0).circle;
    let j = SoroSusu::join_circle(c, addr("GA"), false, false).unwrap();
    let m = SoroSusu::deposit_for_user(j.member, 90);
    assert!(m.has_contributed_current_round);
    assert_eq!(m.total_contributions, 90);
    assert_eq!(m.contribution_count, 0);
    let m = SoroSusu::mark_member_defaulted(m);
    assert_eq!(m.status, MemberStatus::Defaulted);
    assert_eq!(m.total_contributions, 90);
}

#[test]
fn deposit_refused_after_deadline_only() {
    // Created at 0 with a 100 s cycle: the deadline is 100.
    let c = SoroSusu::create_circle(None, addr("GC"), 250, 5, addr("CT"), 100, 0, 0).circle;
    let j = SoroSusu::join_circle(c, addr("GA"), false, false).unwrap();
    assert!(SoroSusu::deposit(&j.circle, j.member.clone(), addr("GA"), 1, 100).is_ok());
    let late = SoroSusu::deposit(&j.circle, j.member, addr("GA"), 1, 101);
    assert_eq!(late.err(), Some(Rejection::DeadlinePassed));
}

#[test]
fn join_refusal_matches_collateral_rule() {
    let c = SoroSusu::create_circle(None, addr("GC"), 10_000_001, 5, addr("CT"), 100, 0, 0).circle;
    assert_eq!(
        SoroSusu::join_refusal(&c, &addr("GA"), false, false),
        Some(Rejection::CollateralRequired)
    );
    assert_eq!(SoroSusu::join_refusal(&c, &addr("GA"), true, false), None);
    assert_eq!(SoroSusu::join_refusal(&c, &addr("GC"), false, false), None);
}
