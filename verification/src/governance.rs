//! Votes: cycle-duration proposals, leniency requests, governance proposals
//! with quadratic voting, and voting power.
use vstd::prelude::*;

use crate::address::Address;
use crate::circle::count_or_zero;
use crate::contracts::SoroSusuContract;
use crate::epoch::{checked_sum, deadline_from, SECS_PER_DAY};
use crate::types::{
    DurationProposal, LeniencyRequest, LeniencyRequestStatus, LeniencyVote, Proposal,
    ProposalStatus, ProposalType, QuadraticVoteChoice, Rejection, SocialCapital, VotingPower,
};

verus! {

/// Voting power of a member who has recorded none.
pub const BASE_QUADRATIC_POWER: u64 = 100;

/// Hours of extension that a leniency request asks for.
pub const LENIENCY_EXTENSION_HOURS: u64 = 48;

/// Trust score of a member with no recorded social capital.
pub const DEFAULT_TRUST_SCORE: u32 = 50;

/// Approvals beyond which a leniency request is approved.
pub const LENIENCY_APPROVAL_THRESHOLD: u32 = 1;

/// The voice credits a vote of weight `w` costs: `w` squared.
pub open spec fn vote_cost(w: u32) -> int {
    w * w
}

/// The quadratic power recorded for a token balance: 100, plus one for
/// every full 10,000 of a positive balance (that quotient taken modulo
/// 2^64, as a cast to `u64` takes it).
pub open spec fn power_for_balance(bal: i128) -> int {
    if bal > 0 {
        100 + ((bal / 10000) as u64)
    } else {
        100
    }
}

/// The leniency request after one more vote: the vote is counted, and the
/// request is approved once it has more than one approval.
pub open spec fn leniency_after_vote(r: LeniencyRequest, v: LeniencyVote) -> LeniencyRequest {
    let approve = if v == LeniencyVote::Approve { r.approve_votes + 1 } else { r.approve_votes as int };
    let reject = if v == LeniencyVote::Reject { r.reject_votes + 1 } else { r.reject_votes as int };
    LeniencyRequest {
        total_votes_cast: (r.total_votes_cast + 1) as u32,
        approve_votes: approve as u32,
        reject_votes: reject as u32,
        status: if approve > 1 { LeniencyRequestStatus::Approved } else { r.status },
        ..r
    }
}

/// A leniency request's tallies agree: every vote cast is an approval or a
/// rejection.
pub open spec fn tallies_consistent(r: LeniencyRequest) -> bool {
    r.total_votes_cast == r.approve_votes + r.reject_votes
}

impl SoroSusuContract {
    /// Opens a proposal to change the cycle duration to `dur`. Its id is the
    /// stored proposal count (zero when none) plus one, which is also the new
    /// count; voting ends a day after `now`.
    pub fn propose_duration(stored_count: Option<u64>, dur: u64, now: u64) -> (res: (
        u64,
        DurationProposal,
    ))
        requires
            count_or_zero(stored_count) < u64::MAX,
            checked_sum(now, SECS_PER_DAY) is Some,
        ensures
            res.0 == count_or_zero(stored_count) + 1,
            res.1 == (DurationProposal {
                id: res.0,
                new_duration: dur,
                votes_for: 0,
                votes_against: 0,
                end_time: (now + SECS_PER_DAY) as u64,
                is_active: true,
            }),
    {
        let count = match stored_count {
            Some(c) => c + 1,
            None => 1,
        };
        let end_time = match deadline_from(now, SECS_PER_DAY) {
            Some(t) => t,
            None => now,
        };
        (
            count,
            DurationProposal {
                id: count,
                new_duration: dur,
                votes_for: 0,
                votes_against: 0,
                end_time,
                is_active: true,
            },
        )
    }

    /// Counts one vote on a duration proposal: for it when `app`, else
    /// against it.
    pub fn vote_duration(p: DurationProposal, app: bool) -> (res: DurationProposal)
        requires
            app ==> p.votes_for < u32::MAX,
            !app ==> p.votes_against < u32::MAX,
        ensures
            app ==> res == (DurationProposal { votes_for: (p.votes_for + 1) as u32, ..p }),
            !app ==> res == (DurationProposal { votes_against: (p.votes_against + 1) as u32, ..p }),
    {
        let mut q = p;
        if app {
            q.votes_for = q.votes_for + 1;
        } else {
            q.votes_against = q.votes_against + 1;
        }
        q
    }

    /// A new leniency request by `req` in circle `cid`: pending, no votes,
    /// asking 48 hours of extension, with voting open for a day from `now`.
    pub fn request_leniency(req: Address, cid: u64, reason: String, now: u64) -> (res:
        LeniencyRequest)
        requires
            checked_sum(now, SECS_PER_DAY) is Some,
        ensures
            res == (LeniencyRequest {
                requester: req,
                circle_id: cid,
                request_timestamp: now,
                voting_deadline: (now + SECS_PER_DAY) as u64,
                status: LeniencyRequestStatus::Pending,
                approve_votes: 0,
                reject_votes: 0,
                total_votes_cast: 0,
                extension_hours: 48,
                reason,
            }),
    {
        let deadline = match deadline_from(now, SECS_PER_DAY) {
            Some(t) => t,
            None => now,
        };
        LeniencyRequest {
            requester: req,
            circle_id: cid,
            request_timestamp: now,
            voting_deadline: deadline,
            status: LeniencyRequestStatus::Pending,
            approve_votes: 0,
            reject_votes: 0,
            total_votes_cast: 0,
            extension_hours: LENIENCY_EXTENSION_HOURS,
            reason,
        }
    }

    /// Counts one vote on a leniency request; the request becomes approved
    /// once it has more than one approval.
    pub fn vote_on_leniency(r: LeniencyRequest, v: LeniencyVote) -> (res: LeniencyRequest)
        requires
            r.total_votes_cast < u32::MAX,
            v == LeniencyVote::Approve ==> r.approve_votes < u32::MAX,
            v == LeniencyVote::Reject ==> r.reject_votes < u32::MAX,
        ensures
            res == leniency_after_vote(r, v),
            res.approve_votes == r.approve_votes + (if v == LeniencyVote::Approve { 1int } else { 0 }),
            res.reject_votes == r.reject_votes + (if v == LeniencyVote::Reject { 1int } else { 0 }),
            res.total_votes_cast == r.total_votes_cast + 1,
            (res.status == LeniencyRequestStatus::Approved) <==> (r.status
                == LeniencyRequestStatus::Approved || res.approve_votes > 1),
            res.approve_votes <= 1 ==> res.status == r.status,
            res.requester == r.requester && res.circle_id == r.circle_id && res.reason == r.reason
                && res.voting_deadline == r.voting_deadline,
    {
        let mut q = r;
        q.total_votes_cast = q.total_votes_cast + 1;
        if v == LeniencyVote::Approve {
            q.approve_votes = q.approve_votes + 1;
        } else {
            q.reject_votes = q.reject_votes + 1;
        }
        if q.approve_votes > LENIENCY_APPROVAL_THRESHOLD {
            q.status = LeniencyRequestStatus::Approved;
        }
        q
    }

    /// Closes a leniency vote by approving the request.
    pub fn finalize_leniency_vote(r: LeniencyRequest) -> (res: LeniencyRequest)
        ensures
            res == (LeniencyRequest { status: LeniencyRequestStatus::Approved, ..r }),
    {
        let mut q = r;
        q.status = LeniencyRequestStatus::Approved;
        q
    }

    /// A member's social capital in a circle: the stored record, or, when
    /// none is stored, a record with nothing given or received and a trust
    /// score of 50.
    pub fn get_social_capital(stored: Option<SocialCapital>, m: Address, cid: u64) -> (res:
        SocialCapital)
        ensures
            stored matches Some(s) ==> res == s,
            stored is None ==> res == (SocialCapital {
                member: m,
                circle_id: cid,
                leniency_given: 0,
                leniency_received: 0,
                voting_participation: 0,
                trust_score: 50,
            }),
    {
        match stored {
            Some(s) => s,
            None => SocialCapital {
                member: m,
                circle_id: cid,
                leniency_given: 0,
                leniency_received: 0,
                voting_participation: 0,
                trust_score: DEFAULT_TRUST_SCORE,
            },
        }
    }

    /// A new governance proposal, always numbered 1: active from `now`, with
    /// voting open for a day, no votes, and quorum marked as met.
    pub fn create_proposal(
        prop: Address,
        cid: u64,
        pt: ProposalType,
        title: String,
        desc: String,
        ed: String,
        now: u64,
    ) -> (res: (u64, Proposal))
        requires
            checked_sum(now, SECS_PER_DAY) is Some,
        ensures
            res.0 == 1,
            res.1 == (Proposal {
                id: 1,
                circle_id: cid,
                proposer: prop,
                proposal_type: pt,
                title,
                description: desc,
                created_timestamp: now,
                voting_start_timestamp: now,
                voting_end_timestamp: (now + SECS_PER_DAY) as u64,
                status: ProposalStatus::Active,
                for_votes: 0,
                against_votes: 0,
                total_voting_power: 0,
                quorum_met: true,
                execution_data: ed,
            }),
    {
        let end = match deadline_from(now, SECS_PER_DAY) {
            Some(t) => t,
            None => now,
        };
        (
            1,
            Proposal {
                id: 1,
                circle_id: cid,
                proposer: prop,
                proposal_type: pt,
                title,
                description: desc,
                created_timestamp: now,
                voting_start_timestamp: now,
                voting_end_timestamp: end,
                status: ProposalStatus::Active,
                for_votes: 0,
                against_votes: 0,
                total_voting_power: 0,
                quorum_met: true,
                execution_data: ed,
            },
        )
    }

    /// Casts a quadratic vote of weight `weight`: it costs `weight` squared,
    /// which must not exceed the voter's quadratic power, else the vote is
    /// refused. A vote for the proposal adds its cost to the votes for it;
    /// votes against or abstaining leave the proposal unchanged.
    pub fn quadratic_vote(p: Proposal, vp: &VotingPower, weight: u32, vc: QuadraticVoteChoice) -> (res:
        Result<Proposal, Rejection>)
        requires
            vote_cost(weight) <= vp.quadratic_power && vc == QuadraticVoteChoice::For
                ==> p.for_votes + vote_cost(weight) <= u64::MAX,
        ensures
            vote_cost(weight) > vp.quadratic_power ==> res == Err::<Proposal, Rejection>(
                Rejection::InsufficientVotingPower,
            ),
            vote_cost(weight) <= vp.quadratic_power && vc == QuadraticVoteChoice::For ==> res
                == Ok::<Proposal, Rejection>(
                Proposal { for_votes: (p.for_votes + vote_cost(weight)) as u64, ..p },
            ),
            vote_cost(weight) <= vp.quadratic_power && vc != QuadraticVoteChoice::For ==> res
                == Ok::<Proposal, Rejection>(p),
    {
        let w = weight as u64;
        assert(w * w <= u64::MAX) by (nonlinear_arith)
            requires w <= u32::MAX;
        let cost = w * w;
        if cost > vp.quadratic_power {
            return Err(Rejection::InsufficientVotingPower);
        }
        let mut q = p;
        if vc == QuadraticVoteChoice::For {
            q.for_votes = q.for_votes + cost;
        }
        Ok(q)
    }

    /// Marks a proposal as approved.
    pub fn execute_proposal(p: Proposal) -> (res: Proposal)
        ensures
            res == (Proposal { status: ProposalStatus::Approved, ..p }),
    {
        let mut q = p;
        q.status = ProposalStatus::Approved;
        q
    }

    /// A member's voting power in a circle: the stored record, or, when none
    /// is stored, a power of 100 with no balance, never updated.
    pub fn get_voting_power(stored: Option<VotingPower>, m: Address, cid: u64) -> (res: VotingPower)
        ensures
            stored matches Some(v) ==> res == v,
            stored is None ==> res == (VotingPower {
                member: m,
                circle_id: cid,
                token_balance: 0,
                quadratic_power: 100,
                last_updated: 0,
            }),
    {
        match stored {
            Some(v) => v,
            None => VotingPower {
                member: m,
                circle_id: cid,
                token_balance: 0,
                quadratic_power: BASE_QUADRATIC_POWER,
                last_updated: 0,
            },
        }
    }

    /// The voting power recorded for member `u` with token balance `bal` at
    /// time `now`: see `power_for_balance`.
    pub fn update_voting_power(u: Address, cid: u64, bal: i128, now: u64) -> (res: VotingPower)
        requires
            power_for_balance(bal) <= u64::MAX,
        ensures
            res == (VotingPower {
                member: u,
                circle_id: cid,
                token_balance: bal,
                quadratic_power: power_for_balance(bal) as u64,
                last_updated: now,
            }),
    {
        let pwr = if bal > 0 {
            BASE_QUADRATIC_POWER + ((bal / 10000) as u64)
        } else {
            BASE_QUADRATIC_POWER
        };
        VotingPower { member: u, circle_id: cid, token_balance: bal, quadratic_power: pwr, last_updated: now }
    }
}

/// Every vote on a leniency request is counted exactly once, as an approval
/// or a rejection, and an approved request stays approved.
pub proof fn lemma_leniency_tallies(r: LeniencyRequest, v: LeniencyVote)
    requires
        tallies_consistent(r),
        r.total_votes_cast < u32::MAX,
    ensures
        tallies_consistent(leniency_after_vote(r, v)),
        r.status == LeniencyRequestStatus::Approved ==> leniency_after_vote(r, v).status
            == LeniencyRequestStatus::Approved,
        leniency_after_vote(r, v).total_votes_cast == r.total_votes_cast + 1,
{
}

/// A vote counts once on its side: an approval adds one approval, a
/// rejection one rejection, and each adds one to the votes cast. The request
/// is approved after the vote exactly when it already was or its approvals
/// now exceed one, whatever the number of rejections; otherwise its status
/// is left as it was.
pub proof fn lemma_leniency_vote_outcome(r: LeniencyRequest, v: LeniencyVote)
    requires
        r.total_votes_cast < u32::MAX,
        r.approve_votes < u32::MAX,
        r.reject_votes < u32::MAX,
    ensures
        leniency_after_vote(r, v).approve_votes == r.approve_votes + (if v
            == LeniencyVote::Approve {
            1int
        } else {
            0
        }),
        leniency_after_vote(r, v).reject_votes == r.reject_votes + (if v == LeniencyVote::Reject {
            1int
        } else {
            0
        }),
        leniency_after_vote(r, v).total_votes_cast == r.total_votes_cast + 1,
        (leniency_after_vote(r, v).status == LeniencyRequestStatus::Approved) <==> (r.status
            == LeniencyRequestStatus::Approved || leniency_after_vote(r, v).approve_votes > 1),
        leniency_after_vote(r, v).approve_votes <= 1 ==> leniency_after_vote(r, v).status
            == r.status,
        leniency_after_vote(r, v).requester == r.requester,
        leniency_after_vote(r, v).circle_id == r.circle_id,
        leniency_after_vote(r, v).voting_deadline == r.voting_deadline,
        leniency_after_vote(r, v).extension_hours == r.extension_hours,
{
}

/// A second approval approves a pending request, however many rejections
/// it has: the approval threshold does not weigh rejections.
pub proof fn lemma_second_approval_approves(r: LeniencyRequest)
    requires
        r.approve_votes == 1,
        r.total_votes_cast < u32::MAX,
    ensures
        leniency_after_vote(r, LeniencyVote::Approve).status == LeniencyRequestStatus::Approved,
{
}

/// Voting power starts at 100 and grows by one for each full 10,000 of a
/// positive balance; a balance of zero or less, or below 10,000, gives the
/// base power.
pub proof fn lemma_power_for_balance(bal: i128)
    ensures
        bal <= 0 ==> power_for_balance(bal) == 100,
        0 < bal < 10000 ==> power_for_balance(bal) == 100,
        bal >= 10000 && bal / 10000 <= u64::MAX ==> power_for_balance(bal) >= 101,
        bal > 0 && bal / 10000 <= u64::MAX ==> power_for_balance(bal) == 100 + bal / 10000,
{
    if bal >= 10000 {
        assert(bal / 10000 >= 1) by (nonlinear_arith) requires bal >= 10000;
    }
    if 0 < bal < 10000 {
        assert(bal / 10000 == 0) by (nonlinear_arith) requires 0 < bal < 10000;
    }
}

/// A quadratic vote of weight `w` costs `w` squared: nothing for weight
/// zero, and a doubled weight costs four times as much.
pub proof fn lemma_vote_cost_quadratic(w: u32)
    requires
        2 * w <= u32::MAX,
    ensures
        vote_cost(w) == w * w,
        vote_cost(0) == 0,
        vote_cost((2 * w) as u32) == 4 * vote_cost(w),
{
    assert((2 * w) * (2 * w) == 4 * (w * w)) by (nonlinear_arith);
}

} // verus!
