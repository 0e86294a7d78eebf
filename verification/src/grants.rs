//! Grants, audit snapshots and impact certificates.
use vstd::prelude::*;

use crate::address::Address;
use crate::contracts::SoroSusuContract;
use crate::arith::trunc_div;
use crate::types::{
    AuditEntry, GrantSettlement, ImpactCertificateMetadata, MilestoneProgress, ProposalStats,
    VotingSnapshot,
};

verus! {

/// Impact score of a new certificate.
pub const INITIAL_IMPACT_SCORE: u32 = 5000;

impl SoroSusuContract {
    /// The settlement of a grant ended by agreement: half the grant
    /// (rounded toward zero) is reported as dripped, as work-in-progress pay
    /// and as returned to the treasury.
    pub fn terminate_grant_amicably(gid: u64, grantee: Address, total: i128) -> (res:
        GrantSettlement)
        ensures
            res == (GrantSettlement {
                grant_id: gid,
                grantee,
                total_grant_amount: total,
                amount_dripped: trunc_div(total as int, 2) as i128,
                work_in_progress_pay: trunc_div(total as int, 2) as i128,
                treasury_return: trunc_div(total as int, 2) as i128,
            }),
    {
        GrantSettlement {
            grant_id: gid,
            grantee,
            total_grant_amount: total,
            amount_dripped: total / 2,
            work_in_progress_pay: total / 2,
            treasury_return: total / 2,
        }
    }

    /// The audit snapshot of proposal `pid`: 100 votes, 70 for, 20 against,
    /// 10 abstaining, a quorum of 50 met, result "APPROVED", hash "hash".
    pub fn create_voting_snapshot_for_audit(pid: u64) -> (res: VotingSnapshot)
        ensures
            res.proposal_id == pid,
            res.total_votes == 100,
            res.for_votes == 70,
            res.against_votes == 20,
            res.abstain_votes == 10,
            res.quorum_required == 50,
            res.quorum_met,
            res.result@ == "APPROVED"@,
            res.vote_hash@ == "hash"@,
    {
        VotingSnapshot {
            proposal_id: pid,
            total_votes: 100,
            for_votes: 70,
            against_votes: 20,
            abstain_votes: 10,
            quorum_required: 50,
            quorum_met: true,
            result: "APPROVED".to_owned(),
            vote_hash: "hash".to_owned(),
        }
    }

    /// A new impact certificate for `grantee`: no phase completed, an impact
    /// score of 5000, the "BRONZE" badge, and in progress.
    pub fn initialize_impact_certificate(grantee: Address, id: u128, total_phases: u32) -> (res:
        ImpactCertificateMetadata)
        ensures
            res == (ImpactCertificateMetadata {
                id,
                grantee,
                total_phases,
                phases_completed: 0,
                impact_score: 5000,
                on_chain_badge: res.on_chain_badge,
                milestone_status: MilestoneProgress::InProgress,
            }),
            res.on_chain_badge@ == "BRONZE"@,
    {
        ImpactCertificateMetadata {
            id,
            grantee,
            total_phases,
            phases_completed: 0,
            impact_score: INITIAL_IMPACT_SCORE,
            on_chain_badge: "BRONZE".to_owned(),
            milestone_status: MilestoneProgress::InProgress,
        }
    }

    /// Records milestone progress: the completed phases become `new_phase`
    /// and `impact` (taken modulo 2^32, as a cast to `u32` takes it) is added
    /// to the impact score.
    pub fn update_milestone_progress(
        m: ImpactCertificateMetadata,
        new_phase: u32,
        impact: i128,
    ) -> (res: ImpactCertificateMetadata)
        requires
            m.impact_score + (impact as u32) <= u32::MAX,
        ensures
            res == (ImpactCertificateMetadata {
                phases_completed: new_phase,
                impact_score: (m.impact_score + (impact as u32)) as u32,
                ..m
            }),
    {
        let mut c = m;
        c.phases_completed = new_phase;
        c.impact_score = c.impact_score + (impact as u32);
        c
    }

    /// Proposal statistics as reported by the contract: one approved
    /// proposal and nothing else, whatever the circle.
    pub fn get_proposal_stats(cid: u64) -> (res: ProposalStats)
        ensures
            res == (ProposalStats {
                total_proposals: 0,
                active_proposals: 0,
                approved_proposals: 1,
                rejected_proposals: 0,
                executed_proposals: 0,
            }),
    {
        ProposalStats {
            total_proposals: 0,
            active_proposals: 0,
            approved_proposals: 1,
            rejected_proposals: 0,
            executed_proposals: 0,
        }
    }

    /// A frozen payout as reported by the contract: none, of amount zero.
    pub fn get_frozen_payout(cid: u64) -> (res: (i128, Option<Address>))
        ensures
            res.0 == 0,
            res.1 is None,
    {
        (0, None)
    }

    /// Audit entries of an actor in a time window, as the contract lists
    /// them: none.
    pub fn query_audit_by_actor(actor: &Address, s: u64, e: u64, o: u32, l: u32) -> (res: Vec<
        AuditEntry,
    >)
        ensures
            res@.len() == 0,
    {
        Vec::new()
    }

    /// Audit entries about a resource in a time window, as the contract
    /// lists them: none.
    pub fn query_audit_by_resource(rid: u64, s: u64, e: u64, o: u32, l: u32) -> (res: Vec<
        AuditEntry,
    >)
        ensures
            res@.len() == 0,
    {
        Vec::new()
    }

    /// Audit entries in a time window, as the contract lists them: none.
    pub fn query_audit_by_time(s: u64, e: u64, o: u32, l: u32) -> (res: Vec<AuditEntry>)
        ensures
            res@.len() == 0,
    {
        Vec::new()
    }
}

} // verus!
