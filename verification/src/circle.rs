//! Circles and their members: creation, joining, contributions, the pot
//! claim, round bookkeeping and the address-recovery vote.
use vstd::prelude::*;

use crate::address::Address;
use crate::arith::trunc_div;
use crate::contracts::SoroSusuContract;
use crate::epoch::{checked_sum, deadline_from};
use crate::types::{AssetWeight, CircleInfo, Collection, Member, MemberStatus, Payout, Rejection};

verus! {

/// Contribution amount above which joining a circle needs collateral.
pub const COLLATERAL_THRESHOLD: i128 = 10_000_000;

/// The contract-wide settings written by `init`.
#[derive(Clone, Debug, PartialEq, Eq)]
pub struct InstanceSettings {
    pub admin: Address,
    pub circle_count: u64,
    pub fee_bps: u32,
}

/// A circle just created, with its id and bond.
pub struct NewCircle {
    pub id: u64,
    pub circle: CircleInfo,
    /// The bond recorded for the circle.
    pub bond: i128,
    /// The bond collected from the creator, when it is positive.
    pub bond_deposit: Option<Collection>,
}

/// A basket circle just created, with its id and asset weights.
pub struct NewBasketCircle {
    pub id: u64,
    pub circle: CircleInfo,
    pub basket: Vec<AssetWeight>,
}

/// A circle after a member joined, and the new member's record.
pub struct Joined {
    pub circle: CircleInfo,
    pub member: Member,
}

/// A member's record after a contribution, and the tokens collected.
pub struct Deposited {
    pub member: Member,
    pub collection: Collection,
}

/// A circle after its pot was claimed, and the payment of the pot.
pub struct PotClaim {
    pub circle: CircleInfo,
    pub payout: Payout,
}

/// The stored circle count, or zero when none is stored.
pub open spec fn count_or_zero(stored_count: Option<u64>) -> int {
    match stored_count {
        Some(c) => c as int,
        None => 0,
    }
}

/// `c` is a freshly created circle: no members yet, recipient index and
/// round zero, active, one winner per round, and every optional setting
/// unset.
pub open spec fn is_fresh_circle(
    c: CircleInfo,
    id: u64,
    creator: Address,
    contribution_amount: i128,
    max_members: u32,
    token: Address,
    deadline_timestamp: u64,
    cycle_duration: u64,
) -> bool {
    &&& c == CircleInfo {
        id,
        creator,
        contribution_amount,
        max_members,
        member_count: 0,
        current_recipient_index: 0,
        is_active: true,
        token,
        deadline_timestamp,
        cycle_duration,
        member_addresses: c.member_addresses,
        recovery_votes_bitmap: 0,
        recovery_old_address: None,
        recovery_new_address: None,
        grace_period_end: None,
        requires_collateral: false,
        collateral_bps: 0,
        quadratic_voting_enabled: false,
        proposal_count: 0,
        total_cycle_value: 0,
        winners_per_round: 1,
        batch_payout_enabled: false,
        current_pot_recipient: None,
        is_round_finalized: false,
        round_number: 0,
    }
    &&& c.member_addresses@.len() == 0
}

/// The record of a member who just joined at position `index`.
pub open spec fn new_member(u: Address, index: u32) -> Member {
    Member {
        address: u,
        index,
        contribution_count: 0,
        last_contribution_time: 0,
        status: MemberStatus::Active,
        tier_multiplier: 1,
        referrer: None,
        buddy: None,
        has_contributed_current_round: false,
        total_contributions: 0,
    }
}

/// Whether `u` must show collateral or a lien to join `c`: the circle's
/// contribution is above the threshold and `u` is not its creator.
pub open spec fn collateral_required(c: CircleInfo, u: Address) -> bool {
    c.contribution_amount > 10_000_000 && u@ != c.creator@
}

/// The circle's member list is as long as its member count.
pub open spec fn members_consistent(c: CircleInfo) -> bool {
    c.member_addresses@.len() == c.member_count
}

/// `circle` and `member` are what `u` joining `c` produces.
pub open spec fn is_join_of(c: CircleInfo, u: Address, circle: CircleInfo, member: Member) -> bool {
    &&& member == new_member(u, c.member_count)
    &&& circle == (CircleInfo {
        member_addresses: circle.member_addresses,
        member_count: (c.member_count + 1) as u32,
        ..c
    })
    &&& circle.member_addresses@ == c.member_addresses@.push(u)
}

/// The amount of one basket asset collected for a contribution: the
/// asset's weight (in basis points) of the contribution, rounded toward zero.
pub open spec fn basket_share(amount: i128, weight_bps: u32) -> int {
    trunc_div(amount * weight_bps, 10000)
}

impl SoroSusuContract {
    /// Initial contract settings: the admin, a circle count of zero and the
    /// fee. `None` when the contract is already initialised, in which case
    /// nothing changes.
    pub fn init(already_initialized: bool, admin: Address, fee: u32) -> (res: Option<
        InstanceSettings,
    >)
        ensures
            already_initialized ==> res is None,
            !already_initialized ==> res == Some(
                InstanceSettings { admin, circle_count: 0, fee_bps: fee },
            ),
    {
        if already_initialized {
            None
        } else {
            Some(InstanceSettings { admin, circle_count: 0, fee_bps: fee })
        }
    }

    /// Creates a circle. Its id is the stored circle count (zero when none)
    /// plus one, which is also the new count; its deadline is `dur` seconds
    /// after `now`. A positive bond is collected from the creator; the bond
    /// is recorded whatever its sign.
    pub fn create_circle(
        stored_count: Option<u64>,
        creator: Address,
        amt: i128,
        max: u32,
        tok: Address,
        dur: u64,
        bond: i128,
        now: u64,
    ) -> (res: NewCircle)
        requires
            count_or_zero(stored_count) < u64::MAX,
            checked_sum(now, dur) is Some,
        ensures
            res.id == count_or_zero(stored_count) + 1,
            is_fresh_circle(res.circle, res.id, creator, amt, max, tok, (now + dur) as u64, dur),
            res.bond == bond,
            bond > 0 ==> res.bond_deposit == Some(Collection { token: tok, from: creator, amount: bond }),
            bond <= 0 ==> res.bond_deposit is None,
    {
        let bond_deposit = if bond > 0 {
            Some(Collection { token: tok.clone(), from: creator.clone(), amount: bond })
        } else {
            None
        };
        let count = match stored_count {
            Some(c) => c,
            None => 0,
        };
        let id = count + 1;
        let deadline = match deadline_from(now, dur) {
            Some(d) => d,
            None => now,
        };
        let circle = CircleInfo {
            id,
            creator,
            contribution_amount: amt,
            max_members: max,
            member_count: 0,
            current_recipient_index: 0,
            is_active: true,
            token: tok,
            deadline_timestamp: deadline,
            cycle_duration: dur,
            member_addresses: Vec::new(),
            recovery_votes_bitmap: 0,
            recovery_old_address: None,
            recovery_new_address: None,
            grace_period_end: None,
            requires_collateral: false,
            collateral_bps: 0,
            quadratic_voting_enabled: false,
            proposal_count: 0,
            total_cycle_value: 0,
            winners_per_round: 1,
            batch_payout_enabled: false,
            current_pot_recipient: None,
            is_round_finalized: false,
            round_number: 0,
        };
        NewCircle { id, circle, bond, bond_deposit }
    }

    /// Creates a circle contributed in a basket of assets: the circle's token
    /// is the first asset, and the basket pairs each asset with the weight at
    /// the same position. Numbering and deadline are as in `create_circle`.
    pub fn create_basket_circle(
        stored_count: Option<u64>,
        creator: Address,
        amt: i128,
        max: u32,
        assets: Vec<Address>,
        weights: Vec<u32>,
        dur: u64,
        now: u64,
    ) -> (res: NewBasketCircle)
        requires
            count_or_zero(stored_count) < u64::MAX,
            checked_sum(now, dur) is Some,
            assets@.len() >= 1,
            weights@.len() >= assets@.len(),
        ensures
            res.id == count_or_zero(stored_count) + 1,
            is_fresh_circle(
                res.circle,
                res.id,
                creator,
                amt,
                max,
                assets@[0],
                (now + dur) as u64,
                dur,
            ),
            res.basket@.len() == assets@.len(),
            forall|i: int|
                0 <= i < assets@.len() ==> #[trigger] res.basket@[i] == (AssetWeight {
                    token: assets@[i],
                    weight_bps: weights@[i],
                }),
    {
        let count = match stored_count {
            Some(c) => c,
            None => 0,
        };
        let id = count + 1;
        let deadline = match deadline_from(now, dur) {
            Some(d) => d,
            None => now,
        };
        let circle = CircleInfo {
            id,
            creator,
            contribution_amount: amt,
            max_members: max,
            member_count: 0,
            current_recipient_index: 0,
            is_active: true,
            token: assets[0].clone(),
            deadline_timestamp: deadline,
            cycle_duration: dur,
            member_addresses: Vec::new(),
            recovery_votes_bitmap: 0,
            recovery_old_address: None,
            recovery_new_address: None,
            grace_period_end: None,
            requires_collateral: false,
            collateral_bps: 0,
            quadratic_voting_enabled: false,
            proposal_count: 0,
            total_cycle_value: 0,
            winners_per_round: 1,
            batch_payout_enabled: false,
            current_pot_recipient: None,
            is_round_finalized: false,
            round_number: 0,
        };
        let mut basket: Vec<AssetWeight> = Vec::new();
        let n = assets.len();
        let mut i: usize = 0;
        while i < n
            invariant
                n == assets@.len(),
                weights@.len() >= n,
                i <= n,
                basket@.len() == i,
                forall|j: int|
                    0 <= j < i ==> #[trigger] basket@[j] == (AssetWeight {
                        token: assets@[j],
                        weight_bps: weights@[j],
                    }),
            decreases n - i,
        {
            basket.push(AssetWeight { token: assets[i].clone(), weight_bps: weights[i] });
            i = i + 1;
        }
        NewBasketCircle { id, circle, basket }
    }

    /// Why `u` may not join a circle: `CollateralRequired` when the
    /// contribution is above 10,000,000, `u` is not the creator, and `u` has
    /// neither a collateral vault nor a vesting lien recorded in the circle.
    pub fn join_refusal(circle: &CircleInfo, u: &Address, has_collateral: bool, has_lien: bool) -> (res:
        Option<Rejection>)
        ensures
            res == (if collateral_required(*circle, *u) && !has_collateral && !has_lien {
                Some(Rejection::CollateralRequired)
            } else {
                None::<Rejection>
            }),
    {
        if circle.contribution_amount > COLLATERAL_THRESHOLD && !u.same_as(&circle.creator)
            && !has_collateral && !has_lien {
            Some(Rejection::CollateralRequired)
        } else {
            None
        }
    }

    /// Adds `u` to a circle. When the contribution is above 10,000,000 and
    /// `u` is not the creator, `u` must have a collateral vault or a vesting
    /// lien recorded in the circle, else the join is refused. The new member
    /// is active with nothing contributed, takes the next index, and its
    /// address is appended to the member list.
    pub fn join_circle(circle: CircleInfo, u: Address, has_collateral: bool, has_lien: bool) -> (res:
        Result<Joined, Rejection>)
        requires
            !(collateral_required(circle, u) && !has_collateral && !has_lien)
                ==> circle.member_count < u32::MAX,
        ensures
            collateral_required(circle, u) && !has_collateral && !has_lien ==> res == Err::<
                Joined,
                Rejection,
            >(Rejection::CollateralRequired),
            !(collateral_required(circle, u) && !has_collateral && !has_lien) ==> (res matches Ok(
                j,
            ) && is_join_of(circle, u, j.circle, j.member)),
            res matches Ok(j) ==> {
                &&& j.member.address == u
                &&& j.member.index == circle.member_count
                &&& j.member.status == MemberStatus::Active
                &&& !j.member.has_contributed_current_round
                &&& j.member.contribution_count == 0
                &&& j.member.total_contributions == 0
                &&& j.member.last_contribution_time == 0
                &&& j.circle.member_count == circle.member_count + 1
                &&& j.circle.member_addresses@ == circle.member_addresses@.push(u)
            },
    {
        let mut c = circle;
        if c.contribution_amount > COLLATERAL_THRESHOLD && !u.same_as(&c.creator) {
            if !has_collateral && !has_lien {
                return Err(Rejection::CollateralRequired);
            }
        }
        let m = Member {
            address: u.clone(),
            index: c.member_count,
            contribution_count: 0,
            last_contribution_time: 0,
            status: MemberStatus::Active,
            tier_multiplier: 1,
            referrer: None,
            buddy: None,
            has_contributed_current_round: false,
            total_contributions: 0,
        };
        c.member_addresses.push(u);
        c.member_count = c.member_count + 1;
        Ok(Joined { circle: c, member: m })
    }

    /// Records `u`'s contribution for `r` rounds at time `now`. A deposit
    /// after the circle's deadline is refused (up to and at the deadline it
    /// is on time). Otherwise `r` times the circle's contribution is
    /// collected from `u`, the member's contribution count grows by `r`, its
    /// total by the amount collected, and it is marked as having contributed
    /// this round; no fee is taken.
    pub fn deposit(circle: &CircleInfo, member: Member, u: Address, r: u32, now: u64) -> (res: Result<
        Deposited,
        Rejection,
    >)
        requires
            now <= circle.deadline_timestamp ==> {
                &&& i128::MIN <= circle.contribution_amount * r <= i128::MAX
                &&& member.contribution_count + r <= u32::MAX
                &&& i128::MIN <= member.total_contributions + circle.contribution_amount * r
                    <= i128::MAX
            },
        ensures
            now > circle.deadline_timestamp ==> res == Err::<Deposited, Rejection>(
                Rejection::DeadlinePassed,
            ),
            now <= circle.deadline_timestamp ==> (res matches Ok(d) && {
                &&& d.member == (Member {
                    contribution_count: (member.contribution_count + r) as u32,
                    has_contributed_current_round: true,
                    total_contributions: (member.total_contributions + circle.contribution_amount
                        * r) as i128,
                    ..member
                })
                &&& d.collection == (Collection {
                    token: circle.token,
                    from: u,
                    amount: (circle.contribution_amount * r) as i128,
                })
            }),
    {
        if now > circle.deadline_timestamp {
            return Err(Rejection::DeadlinePassed);
        }
        let amount = circle.contribution_amount * (r as i128);
        let mut m = member;
        m.contribution_count = m.contribution_count + r;
        m.has_contributed_current_round = true;
        m.total_contributions = m.total_contributions + amount;
        Ok(Deposited { member: m, collection: Collection { token: circle.token.clone(), from: u, amount } })
    }

    /// The collections of a basket contribution by `u`: for each basket
    /// asset, in order, its weighted share of the circle's contribution.
    pub fn deposit_basket(circle: &CircleInfo, basket: &Vec<AssetWeight>, u: &Address) -> (res: Vec<
        Collection,
    >)
        requires
            forall|i: int|
                0 <= i < basket@.len() ==> i128::MIN <= circle.contribution_amount
                    * #[trigger] basket@[i].weight_bps <= i128::MAX,
        ensures
            res@.len() == basket@.len(),
            forall|i: int|
                0 <= i < basket@.len() ==> #[trigger] res@[i] == (Collection {
                    token: basket@[i].token,
                    from: *u,
                    amount: basket_share(circle.contribution_amount, basket@[i].weight_bps)
                        as i128,
                }),
    {
        let mut out: Vec<Collection> = Vec::new();
        let n = basket.len();
        let mut i: usize = 0;
        while i < n
            invariant
                n == basket@.len(),
                i <= n,
                out@.len() == i,
                forall|j: int|
                    0 <= j < n ==> i128::MIN <= circle.contribution_amount
                        * #[trigger] basket@[j].weight_bps <= i128::MAX,
                forall|j: int|
                    0 <= j < i ==> #[trigger] out@[j] == (Collection {
                        token: basket@[j].token,
                        from: *u,
                        amount: basket_share(circle.contribution_amount, basket@[j].weight_bps)
                            as i128,
                    }),
            decreases n - i,
        {
            let item = &basket[i];
            assert(i128::MIN <= circle.contribution_amount * basket@[i as int].weight_bps
                <= i128::MAX);
            let amount = circle.contribution_amount * (item.weight_bps as i128) / 10000;
            out.push(Collection { token: item.token.clone(), from: u.clone(), amount });
            i = i + 1;
        }
        out
    }

    /// Releases a circle's bond: a positive stored bond (zero when none) is
    /// paid back to the creator; otherwise nothing moves.
    pub fn release_bond(stored_bond: Option<i128>, circle: &CircleInfo) -> (res: Option<Payout>)
        ensures
            (match stored_bond {
                Some(b) => b > 0,
                None => false,
            }) ==> res == Some(
                Payout { token: circle.token, to: circle.creator, amount: stored_bond->0 },
            ),
            !(match stored_bond {
                Some(b) => b > 0,
                None => false,
            }) ==> res is None,
    {
        let b = match stored_bond {
            Some(b) => b,
            None => 0,
        };
        if b > 0 {
            Some(Payout { token: circle.token.clone(), to: circle.creator.clone(), amount: b })
        } else {
            None
        }
    }

    /// Opens an address-recovery vote: records the old and new addresses and
    /// starts the vote bitmap with the proposer's bit alone.
    pub fn propose_address_change(
        circle: CircleInfo,
        proposer: &Member,
        old: Address,
        new: Address,
    ) -> (res: CircleInfo)
        requires
            proposer.index < 32,
        ensures
            res == (CircleInfo {
                recovery_old_address: Some(old),
                recovery_new_address: Some(new),
                recovery_votes_bitmap: (1u32 << proposer.index),
                ..circle
            }),
    {
        let mut c = circle;
        c.recovery_old_address = Some(old);
        c.recovery_new_address = Some(new);
        c.recovery_votes_bitmap = 1u32 << proposer.index;
        c
    }

    /// Adds the voter's bit to the recovery vote bitmap.
    pub fn vote_for_recovery(circle: CircleInfo, voter: &Member) -> (res: CircleInfo)
        requires
            voter.index < 32,
        ensures
            res == (CircleInfo {
                recovery_votes_bitmap: circle.recovery_votes_bitmap | (1u32 << voter.index),
                ..circle
            }),
    {
        let mut c = circle;
        c.recovery_votes_bitmap = c.recovery_votes_bitmap | (1u32 << voter.index);
        c
    }

    /// Pays the whole pot (contribution times member count) to `u` and
    /// closes the circle.
    pub fn claim_pot(circle: CircleInfo, u: Address) -> (res: PotClaim)
        requires
            i128::MIN <= circle.contribution_amount * circle.member_count <= i128::MAX,
        ensures
            res.circle == (CircleInfo { is_active: false, ..circle }),
            res.payout == (Payout {
                token: circle.token,
                to: u,
                amount: (circle.contribution_amount * circle.member_count) as i128,
            }),
    {
        let mut c = circle;
        let amount = c.contribution_amount * (c.member_count as i128);
        let payout = Payout { token: c.token.clone(), to: u, amount };
        c.is_active = false;
        PotClaim { circle: c, payout }
    }

    /// Marks the round as finalised with `u` as the pot recipient.
    pub fn finalize_round(circle: CircleInfo, u: Address) -> (res: CircleInfo)
        ensures
            res == (CircleInfo { is_round_finalized: true, current_pot_recipient: Some(u), ..circle }),
    {
        let mut c = circle;
        c.is_round_finalized = true;
        c.current_pot_recipient = Some(u);
        c
    }

    /// Enables batch payouts with `winners` winners per round.
    pub fn configure_batch_payout(circle: CircleInfo, winners: u32) -> (res: CircleInfo)
        ensures
            res == (CircleInfo { winners_per_round: winners, batch_payout_enabled: true, ..circle }),
    {
        let mut c = circle;
        c.winners_per_round = winners;
        c.batch_payout_enabled = true;
        c
    }

    /// The next winner revealed: the first address of the member list.
    pub fn reveal_next_winner(circle: &CircleInfo) -> (res: Address)
        requires
            circle.member_addresses@.len() > 0,
        ensures
            res == circle.member_addresses@[0],
    {
        circle.member_addresses[0].clone()
    }

    /// Credits a contribution made through an anchor: the member is marked as
    /// having contributed this round and its total grows by `amt`.
    pub fn deposit_for_user(member: Member, amt: i128) -> (res: Member)
        requires
            i128::MIN <= member.total_contributions + amt <= i128::MAX,
        ensures
            res == (Member {
                has_contributed_current_round: true,
                total_contributions: (member.total_contributions + amt) as i128,
                ..member
            }),
    {
        let mut m = member;
        m.has_contributed_current_round = true;
        m.total_contributions = m.total_contributions + amt;
        m
    }

    /// Marks a member as defaulted; every other field is kept.
    pub fn mark_member_defaulted(member: Member) -> (res: Member)
        ensures
            res == (Member { status: MemberStatus::Defaulted, ..member }),
    {
        let mut m = member;
        m.status = MemberStatus::Defaulted;
        m
    }
}

/// Joining keeps a circle's member list in step with its member count; the
/// new member's index locates its own address in the list, and every
/// earlier member keeps its position.
pub proof fn lemma_join_keeps_members_consistent(
    c: CircleInfo,
    u: Address,
    circle: CircleInfo,
    member: Member,
)
    requires
        members_consistent(c),
        c.member_count < u32::MAX,
        is_join_of(c, u, circle, member),
    ensures
        members_consistent(circle),
        circle.member_addresses@[member.index as int] == u,
        forall|i: int|
            0 <= i < c.member_count ==> #[trigger] circle.member_addresses@[i]
                == c.member_addresses@[i],
{
}

/// A recovery vote sets the voter's bit and keeps every bit already set, and
/// voting twice counts once.
pub proof fn lemma_recovery_vote_idempotent(bitmap: u32, index: u32)
    requires
        index < 32,
    ensures
        (bitmap | (1u32 << index)) & (1u32 << index) == (1u32 << index),
        (bitmap | (1u32 << index)) & bitmap == bitmap,
        (bitmap | (1u32 << index)) | (1u32 << index) == bitmap | (1u32 << index),
{
    assert((bitmap | (1u32 << index)) & (1u32 << index) == (1u32 << index)) by (bit_vector);
    assert((bitmap | (1u32 << index)) & bitmap == bitmap) by (bit_vector);
    assert((bitmap | (1u32 << index)) | (1u32 << index) == bitmap | (1u32 << index))
        by (bit_vector);
}

/// A member who has just joined is active, has paid nothing and has not
/// contributed this round: no contributions counted, a zero total, no
/// contribution time, no referrer or buddy, and a tier multiplier of one.
/// Its index is the circle's member count before the join.
pub proof fn lemma_new_member_has_paid_nothing(
    c: CircleInfo,
    u: Address,
    circle: CircleInfo,
    member: Member,
)
    requires
        is_join_of(c, u, circle, member),
    ensures
        !member.has_contributed_current_round,
        member.contribution_count == 0,
        member.total_contributions == 0,
        member.last_contribution_time == 0,
        member.status == MemberStatus::Active,
        member.address == u,
        member.index == c.member_count,
        member.referrer is None,
        member.buddy is None,
        member.tier_multiplier == 1,
{
}

/// A freshly created circle has no members, starts at round zero with the
/// first member as the next recipient, is active and open, pays one winner
/// per round, and has no recovery vote, grace period or pot recipient.
pub proof fn lemma_fresh_circle_facts(
    c: CircleInfo,
    id: u64,
    creator: Address,
    amount: i128,
    max_members: u32,
    token: Address,
    deadline: u64,
    cycle: u64,
)
    requires
        is_fresh_circle(c, id, creator, amount, max_members, token, deadline, cycle),
    ensures
        c.id == id,
        c.creator == creator,
        c.contribution_amount == amount,
        c.max_members == max_members,
        c.token == token,
        c.deadline_timestamp == deadline,
        c.cycle_duration == cycle,
        c.member_count == 0,
        c.member_addresses@.len() == 0,
        c.current_recipient_index == 0,
        c.round_number == 0,
        c.is_active,
        !c.is_round_finalized,
        c.winners_per_round == 1,
        !c.batch_payout_enabled,
        c.recovery_votes_bitmap == 0,
        c.recovery_old_address is None,
        c.recovery_new_address is None,
        c.grace_period_end is None,
        c.current_pot_recipient is None,
        !c.requires_collateral,
        c.total_cycle_value == 0,
        c.proposal_count == 0,
{
}

/// Collateral is needed only above a contribution of 10,000,000, and never
/// from the circle's creator.
pub proof fn lemma_collateral_rule(c: CircleInfo, u: Address)
    ensures
        c.contribution_amount <= 10_000_000 ==> !collateral_required(c, u),
        u@ == c.creator@ ==> !collateral_required(c, u),
        c.contribution_amount > 10_000_000 && u@ != c.creator@ ==> collateral_required(c, u),
{
}

/// A basket asset's share: the whole contribution at 10,000 basis points,
/// nothing at zero, and never more than the contribution for a weight of at
/// most 10,000 on a non-negative contribution.
pub proof fn lemma_basket_share_bounds(amount: i128, weight_bps: u32)
    ensures
        basket_share(amount, 10000) == amount,
        basket_share(amount, 0) == 0,
        amount >= 0 && weight_bps <= 10000 ==> 0 <= basket_share(amount, weight_bps) <= amount,
{
    if amount >= 0 {
        assert((amount * 10000int) / 10000 == amount) by (nonlinear_arith);
        assert(amount * 0int == 0) by (nonlinear_arith);
        if weight_bps <= 10000 {
            assert(0 <= amount * weight_bps <= amount * 10000) by (nonlinear_arith)
                requires amount >= 0, 0 <= weight_bps <= 10000;
            assert((amount * weight_bps) / 10000 <= amount) by (nonlinear_arith)
                requires 0 <= amount * weight_bps <= amount * 10000;
            assert((amount * weight_bps) / 10000 >= 0) by (nonlinear_arith)
                requires 0 <= amount * weight_bps;
        }
    } else {
        assert(-(amount * 10000int) / 10000 == -amount) by (nonlinear_arith) requires amount < 0;
        assert(amount * 0int == 0) by (nonlinear_arith);
    }
}

} // verus!
