//! Duration proposals, leniency votes, governance proposals and voting power.

use sorosusu::address::Address;
use sorosusu::types::{
    LeniencyRequestStatus, LeniencyVote, ProposalStatus, ProposalType, QuadraticVoteChoice,
    Rejection, SocialCapital,
};
use sorosusu::SoroSusu;

fn addr(s: &str) -> Address {
    Address::new(s.to_string())
}

#[test]
fn duration_proposals_are_numbered_and_voted() {
    let (id, p) = SoroSusu::propose_duration(None, 3_600, 1_000);
    assert_eq!(id, 1);
    assert_eq!(p.id, 1);
    assert_eq!(p.end_time, 1_000 + 86_400);
    assert!(p.is_active);
    let (id2, _) = SoroSusu::propose_duration(Some(id), 7_200, 1_000);
    assert_eq!(id2, 2);
    let p = SoroSusu::vote_duration(p, true);
    let p = SoroSusu::vote_duration(p, false);
    let p = SoroSusu::vote_duration(p, true);
    assert_eq!(p.votes_for, 2);
    assert_eq!(p.votes_against, 1);
}

#[test]
fn leniency_approved_after_two_approvals() {
    let r = SoroSusu::request_leniency(addr("GREQ"), 4, "sick".to_string(), 500);
    assert_eq!(r.status, LeniencyRequestStatus::Pending);
    assert_eq!(r.voting_deadline, 500 + 86_400);
    assert_eq!(r.extension_hours, 48);
    assert_eq!(r.reason, "sick");
    let r = SoroSusu::vote_on_leniency(r, LeniencyVote::Approve);
    assert_eq!(r.status, LeniencyRequestStatus::Pending);
    let r = SoroSusu::vote_on_leniency(r, LeniencyVote::Reject);
    assert_eq!(r.status, LeniencyRequestStatus::Pending);
    let r = SoroSusu::vote_on_leniency(r, LeniencyVote::Approve);
    assert_eq!(r.status, LeniencyRequestStatus::Approved);
    assert_eq!(r.approve_votes, 2);
    assert_eq!(r.reject_votes, 1);
    assert_eq!(r.total_votes_cast, 3);
    let r = SoroSusu::vote_on_leniency(r, LeniencyVote::Reject);
    assert_eq!(r.status, LeniencyRequestStatus::Approved);
    assert_eq!(r.total_votes_cast, r.approve_votes + r.reject_votes);
}

#[test]
fn finalize_leniency_approves() {
    let r = SoroSusu::request_leniency(addr("GREQ"), 4, "x".to_string(), 0);
    let r = SoroSusu::finalize_leniency_vote(r);
    assert_eq!(r.status, LeniencyRequestStatus::Approved);
}

#[test]
fn social_capital_defaults_to_trust_fifty() {
    let s = SoroSusu::get_social_capital(None, addr("GM"), 3);
    assert_eq!(s.trust_score, 50);
    assert_eq!(s.member, addr("GM"));
    assert_eq!(s.circle_id, 3);
    let stored = SocialCapital {
        member: addr("GM"),
        circle_id: 3,
        leniency_given: 1,
        leniency_received: 2,
        voting_participation: 3,
        trust_score: 77,
    };
    assert_eq!(SoroSusu::get_social_capital(Some(stored.clone()), addr("GX"), 9), stored);
}

#[test]
fn proposal_created_active_with_one_day_vote() {
    let (id, p) = SoroSusu::create_proposal(
        addr("GP"),
        8,
        ProposalType::ChangeQuorum,
        "t".to_string(),
        "d".to_string(),
        "e".to_string(),
        1_000,
    );
    assert_eq!(id, 1);
    assert_eq!(p.status, ProposalStatus::Active);
    assert_eq!(p.voting_end_timestamp, 87_400);
    assert!(p.quorum_met);
    assert_eq!(SoroSusu::execute_proposal(p).status, ProposalStatus::Approved);
}

#[test]
fn quadratic_vote_costs_weight_squared() {
    let (_, p) = SoroSusu::create_proposal(
        addr("GP"),
        8,
        ProposalType::RuleChange,
        String::new(),
        String::new(),
        String::new(),
        0,
    );
    let vp = SoroSusu::get_voting_power(None, addr("GV"), 8);
    assert_eq!(vp.quadratic_power, 100);
    let p = SoroSusu::quadratic_vote(p, &vp, 10, QuadraticVoteChoice::For).unwrap();
    assert_eq!(p.for_votes, 100);
    let refused = SoroSusu::quadratic_vote(p.clone(), &vp, 11, QuadraticVoteChoice::For);
    assert_eq!(refused.err(), Some(Rejection::InsufficientVotingPower));
    let against = SoroSusu::quadratic_vote(p.clone(), &vp, 3, QuadraticVoteChoice::Against).unwrap();
    assert_eq!(against.for_votes, 100);
    assert_eq!(against.against_votes, 0);
    let abstain = SoroSusu::quadratic_vote(p, &vp, 3, QuadraticVoteChoice::Abstain).unwrap();
    assert_eq!(abstain.for_votes, 100);
}

#[test]
fn voting_power_grows_with_balance() {
    let vp = SoroSusu::update_voting_power(addr("GV"), 2, 25_000, 77);
    assert_eq!(vp.quadratic_power, 102);
    assert_eq!(vp.token_balance, 25_000);
    assert_eq!(vp.last_updated, 77);
    assert_eq!(SoroSusu::update_voting_power(addr("GV"), 2, 9_999, 0).quadratic_power, 100);
    assert_eq!(SoroSusu::update_voting_power(addr("GV"), 2, -50_000, 0).quadratic_power, 100);
    assert_eq!(SoroSusu::update_voting_power(addr("GV"), 2, 0, 0).quadratic_power, 100);
}
