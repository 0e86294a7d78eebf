//! Collateral vaults and vesting liens that members hold in a circle.
use vstd::prelude::*;

use crate::address::Address;
use crate::contracts::SoroSusuContract;
use crate::epoch::{checked_sum, APPEALS_TIMELOCK_SECS};
use crate::types::{
    CollateralInfo, CollateralStatus, Collection, LienInfo, LienStatus, MemberStatus, Payout,
    PendingSlashRecord, Rejection,
};

verus! {

/// A collateral vault just staked, and the tokens collected for it.
pub struct StakedCollateral {
    pub info: CollateralInfo,
    pub collection: Collection,
}

/// Reliability-index points (basis points) that a slash costs a member.
pub const SLASH_RI_PENALTY: u32 = 2000;

/// What a slash produces: the member's vault marked as slashed (when there
/// is one), the group reserve after the slashed amount was taken from it,
/// and the pending record that holds that amount through the appeal window.
pub struct Slash {
    pub vault: Option<CollateralInfo>,
    pub group_reserve: u64,
    pub pending: PendingSlashRecord,
}

/// Why a slash of `amount` is refused: the member has not defaulted (or is
/// not a member), a slash of the member is already pending, or the group
/// reserve cannot cover the amount. `None` when the slash goes ahead.
pub open spec fn slash_refusal(
    member_status: Option<MemberStatus>,
    pending: Option<PendingSlashRecord>,
    group_reserve: u64,
    amount: u64,
) -> Option<Rejection> {
    if member_status != Some(MemberStatus::Defaulted) {
        Some(Rejection::MemberNotDefaulted)
    } else if pending is Some {
        Some(Rejection::SlashAlreadyPending)
    } else if group_reserve < amount {
        Some(Rejection::InsufficientReserve)
    } else {
        None
    }
}

/// A vault marked as slashed.
pub open spec fn slashed_vault(vault: Option<CollateralInfo>) -> Option<CollateralInfo> {
    match vault {
        Some(v) => Some(CollateralInfo { status: CollateralStatus::Slashed, ..v }),
        None => None,
    }
}

/// The instant the appeal window of a slash closes, when representable.
pub open spec fn appeal_deadline(p: PendingSlashRecord) -> Option<u64> {
    checked_sum(p.slashed_at, APPEALS_TIMELOCK_SECS)
}

/// The group reserve after a pending slash is released to it at `now`:
/// refused while no slash is pending, while the appeal window is open (a
/// window whose end is not representable never closes), or when the
/// reserve would overflow.
pub open spec fn release_outcome(pending: Option<PendingSlashRecord>, group_reserve: u64, now: u64) -> Result<
    u64,
    Rejection,
> {
    match pending {
        None => Err(Rejection::NoPendingSlash),
        Some(p) => match appeal_deadline(p) {
            None => Err(Rejection::AppealWindowOpen),
            Some(end) => if now < end {
                Err(Rejection::AppealWindowOpen)
            } else if group_reserve + p.amount > u64::MAX {
                Err(Rejection::ReserveOverflow)
            } else {
                Ok((group_reserve + p.amount) as u64)
            },
        },
    }
}

/// The group reserve after an appeal against a pending slash is granted at
/// `now`: refused while no slash is pending, when the window's end is not
/// representable, once the window has closed, or when the reserve would
/// overflow.
pub open spec fn appeal_outcome(pending: Option<PendingSlashRecord>, group_reserve: u64, now: u64) -> Result<
    u64,
    Rejection,
> {
    match pending {
        None => Err(Rejection::NoPendingSlash),
        Some(p) => match appeal_deadline(p) {
            None => Err(Rejection::TimestampOverflow),
            Some(end) => if now >= end {
                Err(Rejection::AppealWindowExpired)
            } else if group_reserve + p.amount > u64::MAX {
                Err(Rejection::ReserveOverflow)
            } else {
                Ok((group_reserve + p.amount) as u64)
            },
        },
    }
}

/// A collateral vault after release, and the payment of its amount.
pub struct ReleasedCollateral {
    pub info: CollateralInfo,
    pub payout: Payout,
}

impl SoroSusuContract {
    /// Stakes `amt` of the circle's token `token` as `u`'s collateral in
    /// circle `cid` at time `now`.
    pub fn stake_collateral(u: Address, cid: u64, token: Address, amt: i128, now: u64) -> (res:
        StakedCollateral)
        ensures
            res.info == (CollateralInfo {
                member: u,
                circle_id: cid,
                amount: amt,
                status: CollateralStatus::Staked,
                staked_timestamp: now,
                release_timestamp: None,
            }),
            res.collection == (Collection { token, from: u, amount: amt }),
    {
        let collection = Collection { token, from: u.clone(), amount: amt };
        let info = CollateralInfo {
            member: u,
            circle_id: cid,
            amount: amt,
            status: CollateralStatus::Staked,
            staked_timestamp: now,
            release_timestamp: None,
        };
        StakedCollateral { info, collection }
    }

    /// Slashes a member's collateral at time `now`. Only a defaulted
    /// member with no slash already pending can be slashed, and the group
    /// reserve must cover `slash_amount`. The amount leaves the group reserve
    /// and is held in a pending record stamped with `now` until the appeal
    /// window closes; the member's vault, if any, is marked as slashed.
    pub fn slash_collateral(
        member_status: Option<MemberStatus>,
        vault: Option<CollateralInfo>,
        pending: Option<PendingSlashRecord>,
        group_reserve: u64,
        slash_amount: u64,
        now: u64,
    ) -> (res: Result<Slash, Rejection>)
        ensures
            match slash_refusal(member_status, pending, group_reserve, slash_amount) {
                Some(r) => res == Err::<Slash, Rejection>(r),
                None => res matches Ok(s) && {
                    &&& s.group_reserve == group_reserve - slash_amount
                    &&& s.pending == (PendingSlashRecord { amount: slash_amount, slashed_at: now })
                    &&& s.vault == slashed_vault(vault)
                },
            },
    {
        let defaulted = match member_status {
            Some(MemberStatus::Defaulted) => true,
            _ => false,
        };
        if !defaulted {
            return Err(Rejection::MemberNotDefaulted);
        }
        if pending.is_some() {
            return Err(Rejection::SlashAlreadyPending);
        }
        if group_reserve < slash_amount {
            return Err(Rejection::InsufficientReserve);
        }
        let vault = match vault {
            Some(v) => {
                let mut i = v;
                i.status = CollateralStatus::Slashed;
                Some(i)
            },
            None => None,
        };
        Ok(
            Slash {
                vault,
                group_reserve: group_reserve - slash_amount,
                pending: PendingSlashRecord { amount: slash_amount, slashed_at: now },
            },
        )
    }

    /// Returns a staked collateral vault: its whole amount, in the circle's
    /// token, is paid to member `m`, and the vault is marked as released. A
    /// vault that is not staked (already released, or slashed) is refused,
    /// so collateral goes back at most once and never after a slash.
    pub fn release_collateral(info: CollateralInfo, token: Address, m: Address) -> (res: Result<
        ReleasedCollateral,
        Rejection,
    >)
        ensures
            info.status != CollateralStatus::Staked ==> res == Err::<ReleasedCollateral, Rejection>(
                Rejection::CollateralNotStaked,
            ),
            info.status == CollateralStatus::Staked ==> (res matches Ok(r) && {
                &&& r.info == (CollateralInfo { status: CollateralStatus::Released, ..info })
                &&& r.payout == (Payout { token, to: m, amount: info.amount })
            }),
    {
        if info.status != CollateralStatus::Staked {
            return Err(Rejection::CollateralNotStaked);
        }
        let mut i = info;
        let payout = Payout { token, to: m, amount: i.amount };
        i.status = CollateralStatus::Released;
        Ok(ReleasedCollateral { info: i, payout })
    }

    /// Releases a pending slash to the group reserve at time `now`, once
    /// its appeal window has closed (see `release_outcome`). On success the
    /// pending record is spent.
    pub fn release_pending_slash(pending: Option<PendingSlashRecord>, group_reserve: u64, now: u64) -> (res:
        Result<u64, Rejection>)
        ensures
            res == release_outcome(pending, group_reserve, now),
    {
        let p = match pending {
            None => return Err(Rejection::NoPendingSlash),
            Some(p) => p,
        };
        let end = match p.slashed_at.checked_add(APPEALS_TIMELOCK_SECS) {
            None => return Err(Rejection::AppealWindowOpen),
            Some(e) => e,
        };
        if now < end {
            return Err(Rejection::AppealWindowOpen);
        }
        match group_reserve.checked_add(p.amount) {
            None => Err(Rejection::ReserveOverflow),
            Some(r) => Ok(r),
        }
    }

    /// Grants an appeal against a pending slash at time `now`, while its
    /// appeal window is open (see `appeal_outcome`): the slashed amount goes
    /// back to the group reserve and the pending record is spent.
    pub fn grant_appeal(pending: Option<PendingSlashRecord>, group_reserve: u64, now: u64) -> (res: Result<
        u64,
        Rejection,
    >)
        ensures
            res == appeal_outcome(pending, group_reserve, now),
    {
        let p = match pending {
            None => return Err(Rejection::NoPendingSlash),
            Some(p) => p,
        };
        let end = match p.slashed_at.checked_add(APPEALS_TIMELOCK_SECS) {
            None => return Err(Rejection::TimestampOverflow),
            Some(e) => e,
        };
        if now >= end {
            return Err(Rejection::AppealWindowExpired);
        }
        match group_reserve.checked_add(p.amount) {
            None => Err(Rejection::ReserveOverflow),
            Some(r) => Ok(r),
        }
    }

    /// A member's reliability index (basis points) after a slash: 2000
    /// points lower, and never below zero.
    pub fn reliability_after_slash(ri: u32) -> (res: u32)
        ensures
            res == (if ri >= SLASH_RI_PENALTY { (ri - SLASH_RI_PENALTY) as u32 } else { 0 }),
    {
        ri.saturating_sub(SLASH_RI_PENALTY)
    }

    /// A vesting lien of `amt` on vault `vault`, held by `u` in circle
    /// `cid`, created at `now`; liens are always numbered 1.
    pub fn create_vesting_lien(u: Address, cid: u64, vault: Address, amt: i128, now: u64) -> (res: (
        u64,
        LienInfo,
    ))
        ensures
            res.0 == 1,
            res.1 == (LienInfo {
                member: u,
                circle_id: cid,
                vesting_vault_contract: vault,
                lien_amount: amt,
                status: LienStatus::Active,
                create_timestamp: now,
                claim_timestamp: None,
                release_timestamp: None,
                lien_id: 1,
            }),
    {
        let id: u64 = 1;
        (
            id,
            LienInfo {
                member: u,
                circle_id: cid,
                vesting_vault_contract: vault,
                lien_amount: amt,
                status: LienStatus::Active,
                create_timestamp: now,
                claim_timestamp: None,
                release_timestamp: None,
                lien_id: id,
            },
        )
    }

    /// The liens of a circle as listed by the contract: none.
    pub fn get_circle_liens(cid: u64) -> (res: Vec<LienInfo>)
        ensures
            res@.len() == 0,
    {
        Vec::new()
    }

    /// Whether a vesting vault is accepted: every vault is.
    pub fn verify_vesting_vault(vault: &Address) -> (res: bool)
        ensures
            res,
    {
        true
    }
}

/// A slash followed by an appeal granted within the window gives the group
/// reserve back exactly what it had before the slash, and spends the
/// pending record.
pub proof fn lemma_appeal_restores_reserve(
    group_reserve: u64,
    amount: u64,
    slashed_at: u64,
    now: u64,
)
    requires
        amount <= group_reserve,
        slashed_at <= now,
        now < slashed_at + APPEALS_TIMELOCK_SECS,
        slashed_at + APPEALS_TIMELOCK_SECS <= u64::MAX,
    ensures
        appeal_outcome(
            Some(PendingSlashRecord { amount, slashed_at }),
            (group_reserve - amount) as u64,
            now,
        ) == Ok::<u64, Rejection>(group_reserve),
{
}

/// A slash released after the window likewise returns the slashed amount
/// to the group reserve.
pub proof fn lemma_release_returns_amount_to_reserve(
    group_reserve: u64,
    amount: u64,
    slashed_at: u64,
    now: u64,
)
    requires
        amount <= group_reserve,
        slashed_at + APPEALS_TIMELOCK_SECS <= now,
    ensures
        release_outcome(
            Some(PendingSlashRecord { amount, slashed_at }),
            (group_reserve - amount) as u64,
            now,
        ) == Ok::<u64, Rejection>(group_reserve),
{
}

/// At any instant a pending slash can be settled one way only: while its
/// window is open it can be appealed and not released, afterwards released
/// and not appealed. Once the record is spent, neither is possible, so a
/// slash is settled at most once.
pub proof fn lemma_appeal_or_release(p: PendingSlashRecord, group_reserve: u64, now: u64)
    requires
        appeal_deadline(p) is Some,
        group_reserve + p.amount <= u64::MAX,
    ensures
        appeal_outcome(Some(p), group_reserve, now) is Ok <==> !(release_outcome(
            Some(p),
            group_reserve,
            now,
        ) is Ok),
        appeal_outcome(None, group_reserve, now) == Err::<u64, Rejection>(
            Rejection::NoPendingSlash,
        ),
        release_outcome(None, group_reserve, now) == Err::<u64, Rejection>(
            Rejection::NoPendingSlash,
        ),
{
}

/// Only a defaulted member can be slashed: any other status, or no member
/// record, is refused before anything else. A defaulted member with no
/// pending slash and a reserve that covers the amount is slashed; the
/// slashed vault keeps its owner, circle and amount.
pub proof fn lemma_slash_rule(
    member_status: Option<MemberStatus>,
    pending: Option<PendingSlashRecord>,
    group_reserve: u64,
    amount: u64,
    vault: Option<CollateralInfo>,
)
    ensures
        member_status != Some(MemberStatus::Defaulted) ==> slash_refusal(
            member_status,
            pending,
            group_reserve,
            amount,
        ) == Some(Rejection::MemberNotDefaulted),
        member_status == Some(MemberStatus::Defaulted) && pending is Some ==> slash_refusal(
            member_status,
            pending,
            group_reserve,
            amount,
        ) == Some(Rejection::SlashAlreadyPending),
        member_status == Some(MemberStatus::Defaulted) && pending is None && group_reserve
            < amount ==> slash_refusal(member_status, pending, group_reserve, amount) == Some(
            Rejection::InsufficientReserve,
        ),
        member_status == Some(MemberStatus::Defaulted) && pending is None && group_reserve
            >= amount ==> slash_refusal(member_status, pending, group_reserve, amount) is None,
        vault matches Some(v) ==> slashed_vault(vault) matches Some(w) && w.status
            == CollateralStatus::Slashed && w.amount == v.amount && w.member == v.member
            && w.circle_id == v.circle_id,
        vault is None ==> slashed_vault(vault) is None,
{
}

/// A pending slash released while its window is open is refused, and an
/// appeal after the window has closed is refused.
pub proof fn lemma_window_boundaries(p: PendingSlashRecord, group_reserve: u64, now: u64)
    requires
        p.slashed_at + APPEALS_TIMELOCK_SECS <= u64::MAX,
    ensures
        now < p.slashed_at + APPEALS_TIMELOCK_SECS ==> release_outcome(Some(p), group_reserve, now)
            == Err::<u64, Rejection>(Rejection::AppealWindowOpen),
        now >= p.slashed_at + APPEALS_TIMELOCK_SECS ==> appeal_outcome(Some(p), group_reserve, now)
            == Err::<u64, Rejection>(Rejection::AppealWindowExpired),
        now >= p.slashed_at + APPEALS_TIMELOCK_SECS && group_reserve + p.amount <= u64::MAX
            ==> release_outcome(Some(p), group_reserve, now) == Ok::<u64, Rejection>(
            (group_reserve + p.amount) as u64,
        ),
        now < p.slashed_at + APPEALS_TIMELOCK_SECS && group_reserve + p.amount <= u64::MAX
            ==> appeal_outcome(Some(p), group_reserve, now) == Ok::<u64, Rejection>(
            (group_reserve + p.amount) as u64,
        ),
{
}

} // verus!
