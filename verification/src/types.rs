//! The records that the contracts keep, one type per stored record.
//!
//! Addresses are `Address` values, and text fields (names, reasons, symbols)
//! are `String`s.
use vstd::prelude::*;

use crate::address::Address;

verus! {

/// Error codes of the circle contract.
#[derive(Copy, Clone, Debug, Eq, PartialEq, PartialOrd, Ord, Structural)]
pub enum Error {
    AlreadyInit,
    NotAuth,
    NotFound,
    MemberExists,
    LowFunds,
    InvalidAmt,
    NotMember,
}

impl Error {
    /// The numeric code by which the contract reports this error.
    pub fn code(&self) -> (c: u32)
        ensures
            c == match *self {
                Error::AlreadyInit => 100u32,
                Error::NotAuth => 101u32,
                Error::NotFound => 102u32,
                Error::MemberExists => 103u32,
                Error::LowFunds => 104u32,
                Error::InvalidAmt => 105u32,
                Error::NotMember => 106u32,
            },
    {
        match self {
            Error::AlreadyInit => 100,
            Error::NotAuth => 101,
            Error::NotFound => 102,
            Error::MemberExists => 103,
            Error::LowFunds => 104,
            Error::InvalidAmt => 105,
            Error::NotMember => 106,
        }
    }
}

/// Why an operation refused its input. The contract aborts the call with
/// the matching message.
#[derive(Copy, Clone, Debug, PartialEq, Eq, Structural)]
pub enum Rejection {
    /// "Collateral required": a large-contribution circle needs a recorded
    /// collateral vault or vesting lien from every member but its creator.
    CollateralRequired,
    /// "Deposit deadline passed": the circle's deadline is behind; a late
    /// payment is not a deposit.
    DeadlinePassed,
    /// "Member has not defaulted": only a defaulted member's collateral can
    /// be slashed.
    MemberNotDefaulted,
    /// "Slash already pending": a member has at most one pending slash.
    SlashAlreadyPending,
    /// "Collateral not staked": a vault is returned only while it is staked,
    /// so at most once and never after a slash.
    CollateralNotStaked,
    /// "No pending slash".
    NoPendingSlash,
    /// "Appeal window still open": slashed funds reach the group reserve
    /// only once the appeals timelock has run out.
    AppealWindowOpen,
    /// "Appeal window expired": an appeal is granted only within the
    /// appeals timelock.
    AppealWindowExpired,
    /// "Timestamp overflow": the appeal window's end is past the last
    /// representable instant.
    TimestampOverflow,
    /// "Reserve overflow": the group reserve would leave the `u64` range.
    ReserveOverflow,
    /// "Insufficient voting power": the squared vote weight exceeds the
    /// voter's quadratic power.
    InsufficientVotingPower,
    /// "Defaulted member cannot claim".
    DefaultedMemberCannotClaim,
    /// "Tranche not pending": the tranche was claimed or clawed back.
    TrancheNotPending,
    /// "Tranche locked until round {unlock_round}".
    TrancheLocked { unlock_round: u32 },
    /// "Borrower reliability too low".
    ReliabilityTooLow,
    /// "Insufficient reserve": the lender cannot cover the loan.
    InsufficientReserve,
    /// "Borrower cannot repay": the borrower cannot cover the amount due.
    BorrowerCannotRepay,
}

#[derive(Copy, Clone, Debug, Eq, PartialEq, Structural)]
pub enum MemberStatus {
    Active,
    Awaiting,
    Ejected,
    Defaulted,
}

#[derive(Copy, Clone, Debug, Eq, PartialEq, Structural)]
pub enum LeniencyRequestStatus {
    Pending,
    Approved,
    Rejected,
    Expired,
}

#[derive(Copy, Clone, Debug, Eq, PartialEq, Structural)]
pub enum LeniencyVote {
    Approve,
    Reject,
}

#[derive(Clone, Debug, PartialEq, Eq)]
pub struct LeniencyRequest {
    pub requester: Address,
    pub circle_id: u64,
    pub request_timestamp: u64,
    pub voting_deadline: u64,
    pub status: LeniencyRequestStatus,
    pub approve_votes: u32,
    pub reject_votes: u32,
    pub total_votes_cast: u32,
    pub extension_hours: u64,
    pub reason: String,
}

#[derive(Copy, Clone, Debug, Eq, PartialEq, Structural)]
pub struct DurationProposal {
    pub id: u64,
    pub new_duration: u64,
    pub votes_for: u32,
    pub votes_against: u32,
    pub end_time: u64,
    pub is_active: bool,
}

#[derive(Clone, Debug, PartialEq, Eq)]
pub struct SocialCapital {
    pub member: Address,
    pub circle_id: u64,
    pub leniency_given: u32,
    pub leniency_received: u32,
    pub voting_participation: u32,
    pub trust_score: u32,
}

#[derive(Copy, Clone, Debug, Eq, PartialEq, Structural)]
pub enum ProposalStatus {
    Draft,
    Active,
    Approved,
    Rejected,
    Executed,
    Expired,
}

#[derive(Copy, Clone, Debug, Eq, PartialEq, Structural)]
pub enum ProposalType {
    RuleChange,
    AdminUpdate,
    EmergencyHalt,
    ChangeLateFee,
    ChangeInsuranceFee,
    ChangeCycleDuration,
    AddMember,
    RemoveMember,
    ChangeQuorum,
    EmergencyAction,
}

#[derive(Clone, Debug, PartialEq, Eq)]
pub struct Proposal {
    pub id: u64,
    pub circle_id: u64,
    pub proposer: Address,
    pub proposal_type: ProposalType,
    pub title: String,
    pub description: String,
    pub created_timestamp: u64,
    pub voting_start_timestamp: u64,
    pub voting_end_timestamp: u64,
    pub status: ProposalStatus,
    pub for_votes: u64,
    pub against_votes: u64,
    pub total_voting_power: u64,
    pub quorum_met: bool,
    pub execution_data: String,
}

#[derive(Copy, Clone, Debug, Eq, PartialEq, Structural)]
pub enum QuadraticVoteChoice {
    For,
    Against,
    Abstain,
}

#[derive(Clone, Debug, PartialEq, Eq)]
pub struct VotingPower {
    pub member: Address,
    pub circle_id: u64,
    pub token_balance: i128,
    pub quadratic_power: u64,
    pub last_updated: u64,
}

#[derive(Copy, Clone, Debug, Eq, PartialEq, Structural)]
pub enum CollateralStatus {
    NotStaked,
    Staked,
    Slashed,
    Released,
    Defaulted,
}

#[derive(Clone, Debug, PartialEq, Eq)]
pub struct CollateralInfo {
    pub member: Address,
    pub circle_id: u64,
    pub amount: i128,
    pub status: CollateralStatus,
    pub staked_timestamp: u64,
    pub release_timestamp: Option<u64>,
}

#[derive(Clone, Debug, PartialEq, Eq)]
pub struct Member {
    pub address: Address,
    pub index: u32,
    pub contribution_count: u32,
    pub last_contribution_time: u64,
    pub status: MemberStatus,
    pub tier_multiplier: u32,
    pub referrer: Option<Address>,
    pub buddy: Option<Address>,
    pub has_contributed_current_round: bool,
    pub total_contributions: i128,
}

#[derive(Clone, Debug, PartialEq, Eq)]
pub struct CircleInfo {
    pub id: u64,
    pub creator: Address,
    pub contribution_amount: i128,
    pub max_members: u32,
    pub member_count: u32,
    pub current_recipient_index: u32,
    pub is_active: bool,
    pub token: Address,
    pub deadline_timestamp: u64,
    pub cycle_duration: u64,
    pub member_addresses: Vec<Address>,
    pub recovery_votes_bitmap: u32,
    pub recovery_old_address: Option<Address>,
    pub recovery_new_address: Option<Address>,
    pub grace_period_end: Option<u64>,
    pub requires_collateral: bool,
    pub collateral_bps: u32,
    pub quadratic_voting_enabled: bool,
    pub proposal_count: u64,
    pub total_cycle_value: i128,
    pub winners_per_round: u32,
    pub batch_payout_enabled: bool,
    pub current_pot_recipient: Option<Address>,
    pub is_round_finalized: bool,
    pub round_number: u32,
}

#[derive(Copy, Clone, Debug, Eq, PartialEq, Structural)]
pub enum AuditAction {
    DisputeSubmission,
    GovernanceVote,
    EvidenceAccess,
    AdminAction,
}

#[derive(Clone, Debug, PartialEq, Eq)]
pub struct AuditEntry {
    pub id: u64,
    pub actor: Address,
    pub action: AuditAction,
    pub timestamp: u64,
    pub resource_id: u64,
}

#[derive(Copy, Clone, Debug, Eq, PartialEq, Structural)]
pub struct UserStats {
    pub total_volume_saved: i128,
    pub on_time_contributions: u32,
    pub late_contributions: u32,
}

#[derive(Clone, Debug, PartialEq, Eq)]
pub struct NftBadgeMetadata {
    pub name: String,
    pub description: String,
    pub image_url: String,
}

#[derive(Clone, Debug, PartialEq, Eq)]
pub struct BatchPayoutRecord {
    pub batch_payout_id: u64,
    pub circle_id: u64,
    pub round_number: u32,
    pub total_winners: u32,
    pub total_pot: i128,
    pub organizer_fee: i128,
    pub net_payout_per_winner: i128,
    pub dust_amount: i128,
    pub winners: Vec<Address>,
    pub payout_timestamp: u64,
}

#[derive(Clone, Debug, PartialEq, Eq)]
pub struct IndividualPayoutClaim {
    pub recipient: Address,
    pub circle_id: u64,
    pub round_number: u32,
    pub amount_claimed: i128,
    pub batch_payout_id: u64,
    pub claim_timestamp: u64,
}

#[derive(Clone, Debug, PartialEq, Eq)]
pub struct AssetWeight {
    pub token: Address,
    pub weight_bps: u32,
}

#[derive(Clone, Debug, PartialEq, Eq)]
pub struct AnchorInfo {
    pub anchor_address: Address,
    pub anchor_name: String,
    pub sep_version: String,
    pub authorization_level: u32,
    pub compliance_level: u32,
    pub is_active: bool,
    pub registration_timestamp: u64,
    pub last_activity: u64,
    pub supported_countries: Vec<String>,
    pub max_deposit_amount: i128,
    pub daily_deposit_limit: i128,
}

#[derive(Clone, Debug, PartialEq, Eq)]
pub struct AnchorDeposit {
    pub id: u64,
    pub anchor_address: Address,
    pub beneficiary_user: Address,
    pub circle_id: u64,
    pub amount: i128,
    pub deposit_memo: String,
    pub fiat_reference: String,
    pub sep_type: String,
    pub timestamp: u64,
    pub processed: bool,
    pub compliance_verified: bool,
}

#[derive(Clone, Debug, PartialEq, Eq)]
pub struct DexSwapConfig {
    pub enabled: bool,
    pub swap_threshold_xlm: i128,
    pub swap_percentage_bps: u32,
    pub dex_contract: Address,
    pub xlm_token: Address,
    pub slippage_tolerance_bps: u32,
    pub minimum_swap_amount: i128,
    pub emergency_pause: bool,
    pub last_swap_timestamp: u64,
    pub total_swapped_xlm: i128,
}

#[derive(Copy, Clone, Debug, Eq, PartialEq, Structural)]
pub struct DexSwapRecord {
    pub success: bool,
    pub usdc_amount: i128,
    pub xlm_received: i128,
}

#[derive(Copy, Clone, Debug, Eq, PartialEq, Structural)]
pub struct GasReserve {
    pub xlm_balance: i128,
    pub reserved_for_ttl: u64,
    pub auto_swap_enabled: bool,
    pub last_refill_timestamp: u64,
    pub consumption_rate: u64,
}

#[derive(Copy, Clone, Debug, Eq, PartialEq, Structural)]
pub enum TrancheStatus {
    Pending,
    Locked,
    Unlocked,
    Claimed,
    ClawedBack,
}

#[derive(Copy, Clone, Debug, Eq, PartialEq, Structural)]
pub struct Tranche {
    pub amount: i128,
    pub unlock_round: u32,
    pub status: TrancheStatus,
}

#[derive(Clone, Debug, PartialEq, Eq)]
pub struct TrancheSchedule {
    pub circle_id: u64,
    pub winner: Address,
    pub total_pot: i128,
    pub immediate_payout: i128,
    pub tranches: Vec<Tranche>,
}

#[derive(Clone, Debug, PartialEq, Eq)]
pub struct GrantSettlement {
    pub grant_id: u64,
    pub grantee: Address,
    pub total_grant_amount: i128,
    pub amount_dripped: i128,
    pub work_in_progress_pay: i128,
    pub treasury_return: i128,
}

#[derive(Clone, Debug, PartialEq, Eq)]
pub struct VotingSnapshot {
    pub proposal_id: u64,
    pub total_votes: u32,
    pub for_votes: u32,
    pub against_votes: u32,
    pub abstain_votes: u32,
    pub quorum_required: u32,
    pub quorum_met: bool,
    pub result: String,
    pub vote_hash: String,
}

#[derive(Copy, Clone, Debug, Eq, PartialEq, Structural)]
pub enum MilestoneProgress {
    NotStarted,
    InProgress,
    Completed,
    OnHold,
    Cancelled,
}

#[derive(Clone, Debug, PartialEq, Eq)]
pub struct ImpactCertificateMetadata {
    pub id: u128,
    pub grantee: Address,
    pub total_phases: u32,
    pub phases_completed: u32,
    pub impact_score: u32,
    pub on_chain_badge: String,
    pub milestone_status: MilestoneProgress,
}

#[derive(Copy, Clone, Debug, Eq, PartialEq, Structural)]
pub struct ProposalStats {
    pub total_proposals: u64,
    pub active_proposals: u64,
    pub approved_proposals: u64,
    pub rejected_proposals: u64,
    pub executed_proposals: u64,
}

#[derive(Copy, Clone, Debug, Eq, PartialEq, Structural)]
pub struct LiquidityBufferConfig {
    pub is_enabled: bool,
    pub advance_period: u64,
    pub min_reputation: u32,
    pub max_advance_bps: u32,
    pub platform_fee_allocation: u32,
    pub min_reserve: i128,
    pub max_reserve: i128,
    pub advance_fee_bps: u32,
    pub grace_period: u64,
    pub max_advances_per_round: u32,
}

#[derive(Copy, Clone, Debug, Eq, PartialEq, Structural)]
pub struct LiquidityBufferStats {
    pub total_reserve_balance: i128,
    pub total_advances_provided: i128,
    pub active_advances_count: u32,
}

#[derive(Copy, Clone, Debug, Eq, PartialEq, Structural)]
pub enum LiquidityAdvanceStatus {
    Pending,
    Active,
    Repaid,
    Defaulted,
    Cancelled,
}

#[derive(Clone, Debug, PartialEq, Eq)]
pub struct LiquidityAdvance {
    pub id: u64,
    pub member: Address,
    pub circle_id: u64,
    pub contribution_amount: i128,
    pub advance_amount: i128,
    pub advance_fee: i128,
    pub repayment_amount: i128,
    pub status: LiquidityAdvanceStatus,
    pub requested_timestamp: u64,
    pub provided_timestamp: Option<u64>,
}

#[derive(Copy, Clone, Debug, Eq, PartialEq, Structural)]
pub enum LienStatus {
    Active,
    Claimed,
    Released,
}

#[derive(Clone, Debug, PartialEq, Eq)]
pub struct LienInfo {
    pub member: Address,
    pub circle_id: u64,
    pub vesting_vault_contract: Address,
    pub lien_amount: i128,
    pub status: LienStatus,
    pub create_timestamp: u64,
    pub claim_timestamp: Option<u64>,
    pub release_timestamp: Option<u64>,
    pub lien_id: u64,
}

/// Slashed funds held back from the group while the appeal window is open:
/// the amount taken from the group reserve and the time of the slash.
#[derive(Copy, Clone, Debug, Eq, PartialEq, Structural)]
pub struct PendingSlashRecord {
    pub amount: u64,
    pub slashed_at: u64,
}

/// A token movement from the contract to a party: `amount` units of
/// `token` paid to `to`.
#[derive(Clone, Debug, PartialEq, Eq)]
pub struct Payout {
    pub token: Address,
    pub to: Address,
    pub amount: i128,
}

/// A token movement from a party to the contract: `amount` units of
/// `token` collected from `from`.
#[derive(Clone, Debug, PartialEq, Eq)]
pub struct Collection {
    pub token: Address,
    pub from: Address,
    pub amount: i128,
}

} // verus!
