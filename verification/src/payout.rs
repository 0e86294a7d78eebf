//! The rotating pot: each round the member at the recipient index receives
//! 70% of the pot at once and the rest in two tranches that unlock in later
//! rounds; tranches are claimed one by one or clawed back.
use vstd::prelude::*;

use crate::address::Address;
use crate::arith::{lemma_trunc_div_bounds, trunc_div};
use vstd::arithmetic::div_mod::lemma_add_mod_noop_right;
use crate::contracts::SoroSusuContract;
use crate::types::{CircleInfo, Member, MemberStatus, Payout, Rejection, Tranche, TrancheSchedule, TrancheStatus};

verus! {

/// Share of the pot, in basis points, that the round's recipient is paid at once.
pub const IMMEDIATE_PAYOUT_BPS: i128 = 7000;

/// The pot of a round: every member's contribution.
pub open spec fn pot_of(c: CircleInfo) -> int {
    c.contribution_amount * c.member_count
}

/// The part of a pot paid out at once: 70% of it, rounded toward zero.
pub open spec fn immediate_share(pot: int) -> int {
    trunc_div(pot * 7000, 10000)
}

/// The two deferred tranches of a pot paid in round `round`: the rest of the
/// pot split in two halves (the second takes the odd unit), unlocking two and
/// three rounds later.
pub open spec fn deferred_tranches(pot: int, round: u32) -> Seq<Tranche> {
    let rest = pot - immediate_share(pot);
    seq![
        Tranche {
            amount: trunc_div(rest, 2) as i128,
            unlock_round: (round + 2) as u32,
            status: TrancheStatus::Pending,
        },
        Tranche {
            amount: (rest - trunc_div(rest, 2)) as i128,
            unlock_round: (round + 3) as u32,
            status: TrancheStatus::Pending,
        },
    ]
}

/// The recipient index of the round after the one at index `i`, in a circle
/// of `n` members.
pub open spec fn next_recipient_index(i: int, n: int) -> int {
    (i + 1) % n
}

/// The recipient index `k` rounds after index `i`.
pub open spec fn recipient_after(i: int, n: int, k: nat) -> int
    decreases k,
{
    if k == 0 {
        i
    } else {
        next_recipient_index(recipient_after(i, n, (k - 1) as nat), n)
    }
}

/// A circle whose current round can be paid out without leaving the integer
/// ranges of its fields and with a recipient at the current index.
pub open spec fn can_distribute(c: CircleInfo) -> bool {
    &&& c.member_count > 0
    &&& c.current_recipient_index < c.member_addresses@.len()
    &&& i128::MIN <= pot_of(c) <= i128::MAX
    &&& i128::MIN <= pot_of(c) * 7000 <= i128::MAX
    &&& c.round_number + 3 <= u32::MAX
    &&& c.current_recipient_index + 1 <= u32::MAX
}

/// The circle after its round was paid: the recipient index moves on by one
/// (wrapping at the member count), the round number grows by one, and the
/// round is open again.
pub open spec fn circle_after_payout(c: CircleInfo) -> CircleInfo {
    CircleInfo {
        current_recipient_index: next_recipient_index(
            c.current_recipient_index as int,
            c.member_count as int,
        ) as u32,
        round_number: (c.round_number + 1) as u32,
        is_round_finalized: false,
        ..c
    }
}

/// Why a claim of tranche `t` by a member in status `status`, in a circle at
/// round `round`, is refused; `None` when it is honoured.
pub open spec fn claim_refusal(status: MemberStatus, round: u32, t: Tranche) -> Option<Rejection> {
    if status == MemberStatus::Defaulted {
        Some(Rejection::DefaultedMemberCannotClaim)
    } else if t.status != TrancheStatus::Pending {
        Some(Rejection::TrancheNotPending)
    } else if round < t.unlock_round {
        Some(Rejection::TrancheLocked { unlock_round: t.unlock_round })
    } else {
        None
    }
}

/// A tranche marked as claimed.
pub open spec fn claimed(t: Tranche) -> Tranche {
    Tranche { status: TrancheStatus::Claimed, ..t }
}

/// A tranche after a clawback: pending tranches are clawed back, all others
/// are left as they were.
pub open spec fn clawed_back(t: Tranche) -> Tranche {
    if t.status == TrancheStatus::Pending {
        Tranche { status: TrancheStatus::ClawedBack, ..t }
    } else {
        t
    }
}

/// A sequence of tranches after a clawback.
pub open spec fn clawback_all(ts: Seq<Tranche>) -> Seq<Tranche> {
    ts.map_values(|t: Tranche| clawed_back(t))
}

/// What paying out a round produces.
pub struct PotDistribution {
    /// The circle, moved on to its next round.
    pub circle: CircleInfo,
    /// The recipient's tranche schedule.
    pub schedule: TrancheSchedule,
    /// The immediate part of the pot, paid to the recipient.
    pub payout: Payout,
}

/// What an honoured tranche claim produces.
pub struct TrancheClaim {
    /// The schedule with the tranche marked as claimed.
    pub schedule: TrancheSchedule,
    /// The tranche's amount, paid to the claimant.
    pub payout: Payout,
}

impl SoroSusuContract {
    /// Whether the current round of a circle can be paid out: it has
    /// members, a recipient at its index, and its pot, shares, round numbers
    /// and next index stay within their integer ranges.
    pub fn can_distribute_payout(circle: &CircleInfo) -> (b: bool)
        ensures
            b == can_distribute(*circle),
    {
        if circle.member_count == 0 {
            return false;
        }
        if circle.current_recipient_index as usize >= circle.member_addresses.len() {
            return false;
        }
        if circle.round_number > u32::MAX - 3 || circle.current_recipient_index == u32::MAX {
            return false;
        }
        match circle.contribution_amount.checked_mul(circle.member_count as i128) {
            None => false,
            Some(pot) => pot.checked_mul(IMMEDIATE_PAYOUT_BPS).is_some(),
        }
    }

    /// Pays out the current round of circle `cid`: the member at the
    /// recipient index is paid 70% of the pot (contribution times member
    /// count) at once and is given a schedule of two pending tranches for
    /// the rest, unlocking two and three rounds later; the circle moves on to
    /// its next round and recipient.
    pub fn distribute_payout(circle: CircleInfo, cid: u64) -> (res: PotDistribution)
        requires
            can_distribute(circle),
        ensures
            res.circle == circle_after_payout(circle),
            !res.circle.is_round_finalized,
            res.circle.current_recipient_index == (circle.current_recipient_index + 1)
                % (circle.member_count as int),
            res.circle.round_number == circle.round_number + 1,
            res.circle.member_count == circle.member_count,
            res.circle.member_addresses == circle.member_addresses,
            res.schedule == (TrancheSchedule {
                circle_id: cid,
                winner: circle.member_addresses@[circle.current_recipient_index as int],
                total_pot: pot_of(circle) as i128,
                immediate_payout: immediate_share(pot_of(circle)) as i128,
                tranches: res.schedule.tranches,
            }),
            res.schedule.tranches@ == deferred_tranches(pot_of(circle), circle.round_number),
            res.payout == (Payout {
                token: circle.token,
                to: circle.member_addresses@[circle.current_recipient_index as int],
                amount: immediate_share(pot_of(circle)) as i128,
            }),
    {
        let mut c = circle;
        let total_pot = c.contribution_amount * (c.member_count as i128);
        proof {
            lemma_trunc_div_bounds(total_pot * 7000, 10000);
        }
        let immediate_payout = (total_pot * IMMEDIATE_PAYOUT_BPS) / 10000;
        let tranche_total = total_pot - immediate_payout;
        proof {
            lemma_trunc_div_bounds(tranche_total as int, 2);
        }
        let recipient = c.member_addresses[c.current_recipient_index as usize].clone();
        let payout = Payout { token: c.token.clone(), to: recipient.clone(), amount: immediate_payout };
        let mut tranches: Vec<Tranche> = Vec::new();
        tranches.push(
            Tranche {
                amount: tranche_total / 2,
                unlock_round: c.round_number + 2,
                status: TrancheStatus::Pending,
            },
        );
        tranches.push(
            Tranche {
                amount: tranche_total - (tranche_total / 2),
                unlock_round: c.round_number + 3,
                status: TrancheStatus::Pending,
            },
        );
        let schedule = TrancheSchedule {
            circle_id: cid,
            winner: recipient,
            total_pot,
            immediate_payout,
            tranches,
        };
        c.current_recipient_index = (c.current_recipient_index + 1) % c.member_count;
        c.round_number = c.round_number + 1;
        c.is_round_finalized = false;
        proof {
            assert(schedule.tranches@ =~= deferred_tranches(pot_of(circle), circle.round_number));
        }
        PotDistribution { circle: c, schedule, payout }
    }

    /// Claims tranche `tid` of member `u`'s schedule in a circle. A defaulted
    /// member cannot claim; a tranche is claimed at most once, and only once
    /// the circle has reached its unlock round. An honoured claim marks the
    /// tranche as claimed and pays its amount to `u`.
    pub fn claim_tranche(
        u: Address,
        member: &Member,
        circle: &CircleInfo,
        schedule: TrancheSchedule,
        tid: u32,
    ) -> (res: Result<TrancheClaim, Rejection>)
        requires
            member.status != MemberStatus::Defaulted ==> tid < schedule.tranches@.len(),
        ensures
            member.status == MemberStatus::Defaulted ==> res == Err::<TrancheClaim, Rejection>(
                Rejection::DefaultedMemberCannotClaim,
            ),
            member.status != MemberStatus::Defaulted ==> {
                let t = schedule.tranches@[tid as int];
                match claim_refusal(member.status, circle.round_number, t) {
                    Some(r) => res == Err::<TrancheClaim, Rejection>(r),
                    None => res matches Ok(claim) && {
                        &&& claim.schedule == (TrancheSchedule {
                            tranches: claim.schedule.tranches,
                            ..schedule
                        })
                        &&& claim.schedule.tranches@ == schedule.tranches@.update(
                            tid as int,
                            claimed(t),
                        )
                        &&& claim.payout == (Payout { token: circle.token, to: u, amount: t.amount })
                    },
                }
            },
    {
        if member.status == MemberStatus::Defaulted {
            return Err(Rejection::DefaultedMemberCannotClaim);
        }
        let mut ts = schedule;
        let mut tranches = ts.tranches;
        let tranche = tranches[tid as usize];
        if tranche.status != TrancheStatus::Pending {
            return Err(Rejection::TrancheNotPending);
        }
        if circle.round_number < tranche.unlock_round {
            return Err(Rejection::TrancheLocked { unlock_round: tranche.unlock_round });
        }
        let payout = Payout { token: circle.token.clone(), to: u, amount: tranche.amount };
        tranches.set(tid as usize, Tranche { status: TrancheStatus::Claimed, ..tranche });
        ts.tranches = tranches;
        Ok(TrancheClaim { schedule: ts, payout })
    }

    /// Claws back every pending tranche of a schedule; claimed and other
    /// tranches keep their status, and amounts and unlock rounds are kept.
    pub fn execute_tranche_clawback(schedule: TrancheSchedule) -> (res: TrancheSchedule)
        ensures
            res == (TrancheSchedule { tranches: res.tranches, ..schedule }),
            res.tranches@ == clawback_all(schedule.tranches@),
    {
        let mut ts = schedule;
        let mut tranches = ts.tranches;
        let n = tranches.len();
        let mut i: usize = 0;
        while i < n
            invariant
                n == schedule.tranches@.len(),
                tranches@.len() == n,
                i <= n,
                forall|j: int| 0 <= j < i ==> tranches@[j] == clawed_back(schedule.tranches@[j]),
                forall|j: int| i <= j < n ==> tranches@[j] == schedule.tranches@[j],
            decreases n - i,
        {
            let t = tranches[i];
            if t.status == TrancheStatus::Pending {
                tranches.set(i, Tranche { status: TrancheStatus::ClawedBack, ..t });
            }
            i = i + 1;
        }
        proof {
            assert(tranches@ =~= clawback_all(schedule.tranches@));
        }
        ts.tranches = tranches;
        ts
    }
}

/// The immediate payout and the two deferred tranches of a round add up to
/// exactly the pot: paying a round out neither creates nor loses value.
pub proof fn lemma_payout_conserves_pot(c: CircleInfo)
    requires
        can_distribute(c),
    ensures
        ({
            let pot = pot_of(c);
            let t = deferred_tranches(pot, c.round_number);
            immediate_share(pot) + t[0].amount + t[1].amount == pot
        }),
{
    let pot = pot_of(c);
    lemma_trunc_div_bounds(pot * 7000, 10000);
    let rest = pot - immediate_share(pot);
    lemma_trunc_div_bounds(rest, 2);
}

/// The deferred tranches of a round unlock strictly after that round, the
/// first before the second, and both start out pending.
pub proof fn lemma_tranches_unlock_later(c: CircleInfo)
    requires
        can_distribute(c),
    ensures
        ({
            let t = deferred_tranches(pot_of(c), c.round_number);
            &&& t.len() == 2
            &&& c.round_number < t[0].unlock_round < t[1].unlock_round
            &&& t[0].status == TrancheStatus::Pending
            &&& t[1].status == TrancheStatus::Pending
        }),
{
}

/// `k` rounds after index `i` (with `i` a valid index of an `n`-member
/// circle) the recipient index is `(i + k) % n`.
pub proof fn lemma_recipient_after(i: int, n: int, k: nat)
    requires
        0 <= i < n,
    ensures
        recipient_after(i, n, k) == (i + k) % n,
    decreases k,
{
    if k == 0 {
        vstd::arithmetic::div_mod::lemma_small_mod(i as nat, n as nat);
    } else {
        lemma_recipient_after(i, n, (k - 1) as nat);
        lemma_add_mod_noop_right(1, i + k - 1, n);
    }
}

/// The pot rotates through every member: starting from any valid index, the
/// recipients of `n` consecutive rounds of an `n`-member circle are pairwise
/// different, and the rotation is back at its start after `n` rounds.
pub proof fn lemma_rotation_pays_each_member_once(i: int, n: int)
    requires
        0 <= i < n,
    ensures
        forall|k1: nat, k2: nat|
            k1 < k2 < n ==> #[trigger] recipient_after(i, n, k1) != #[trigger] recipient_after(
                i,
                n,
                k2,
            ),
        forall|k: nat| k < n ==> 0 <= #[trigger] recipient_after(i, n, k) < n,
        recipient_after(i, n, n as nat) == i,
{
    assert forall|k: nat| k < n implies 0 <= #[trigger] recipient_after(i, n, k) < n by {
        lemma_recipient_after(i, n, k);
    }
    assert forall|k1: nat, k2: nat| k1 < k2 < n implies #[trigger] recipient_after(i, n, k1)
        != #[trigger] recipient_after(i, n, k2) by {
        lemma_recipient_after(i, n, k1);
        lemma_recipient_after(i, n, k2);
        lemma_mod_below_twice(i + k1, n);
        lemma_mod_below_twice(i + k2, n);
    }
    lemma_recipient_after(i, n, n as nat);
    lemma_mod_below_twice(i + n, n);
}

/// For `0 <= x < 2n`, `x % n` is `x` or `x - n`.
proof fn lemma_mod_below_twice(x: int, n: int)
    requires
        0 <= x < 2 * n,
    ensures
        x % n == (if x < n { x } else { x - n }),
{
    vstd::arithmetic::div_mod::lemma_fundamental_div_mod(x, n);
    assert(0 <= x % n < n) by (nonlinear_arith)
        requires n > 0;
    assert(x % n == (if x < n { x } else { x - n })) by (nonlinear_arith)
        requires
            0 <= x < 2 * n,
            x == n * (x / n) + x % n,
            0 <= x % n < n,
    ;
}

/// A claimed tranche can never be claimed again: whatever the member's
/// status and the circle's round, a second claim is refused.
pub proof fn lemma_claim_only_once(status: MemberStatus, round: u32, t: Tranche)
    requires
        claim_refusal(status, round, t) is None,
    ensures
        claim_refusal(status, round, claimed(t)) == Some(Rejection::TrancheNotPending),
        forall|s: MemberStatus, r: u32| #[trigger] claim_refusal(s, r, claimed(t)) is Some,
{
}

/// After a clawback no tranche can be claimed, a second clawback changes
/// nothing, and tranches that were not pending are left as they were.
pub proof fn lemma_clawback_final(ts: Seq<Tranche>)
    ensures
        forall|i: int, s: MemberStatus, r: u32|
            0 <= i < ts.len() ==> #[trigger] claim_refusal(s, r, clawback_all(ts)[i]) is Some,
        clawback_all(clawback_all(ts)) == clawback_all(ts),
        forall|i: int|
            0 <= i < ts.len() && ts[i].status != TrancheStatus::Pending ==> #[trigger] clawback_all(
                ts,
            )[i] == ts[i],
{
    assert(clawback_all(clawback_all(ts)) =~= clawback_all(ts));
}

/// The circle's rotation bookkeeping is consistent: one address per
/// member, and the recipient index names a member (or is zero while there
/// are none).
pub open spec fn rotation_consistent(c: CircleInfo) -> bool {
    &&& c.member_addresses@.len() == c.member_count
    &&& c.member_count > 0 ==> c.current_recipient_index < c.member_count
    &&& c.member_count == 0 ==> c.current_recipient_index == 0
}

/// A consistent circle with members always has a recipient for its round.
pub proof fn lemma_consistent_circle_has_recipient(c: CircleInfo)
    requires
        rotation_consistent(c),
        c.member_count > 0,
    ensures
        c.current_recipient_index < c.member_addresses@.len(),
{
}

/// A newly created circle starts with consistent rotation bookkeeping.
pub proof fn lemma_fresh_circle_consistent(
    c: CircleInfo,
    id: u64,
    creator: Address,
    amount: i128,
    max_members: u32,
    token: Address,
    deadline: u64,
    cycle: u64,
)
    requires
        crate::circle::is_fresh_circle(c, id, creator, amount, max_members, token, deadline, cycle),
    ensures
        rotation_consistent(c),
{
}

/// Paying out a round keeps the rotation bookkeeping consistent.
pub proof fn lemma_payout_keeps_rotation_consistent(c: CircleInfo)
    requires
        rotation_consistent(c),
        c.member_count > 0,
    ensures
        rotation_consistent(circle_after_payout(c)),
{
    let i = c.current_recipient_index as int;
    let n = c.member_count as int;
    assert(0 <= (i + 1) % n < n) by (nonlinear_arith)
        requires n > 0, 0 <= i;
}

/// Joining keeps the rotation bookkeeping consistent, and so does every
/// operation that leaves the member list, the member count and the
/// recipient index as they were (pot claims, round finalisation, batch
/// settings, recovery votes).
pub proof fn lemma_join_keeps_rotation_consistent(
    c: CircleInfo,
    u: Address,
    circle: CircleInfo,
    member: Member,
)
    requires
        rotation_consistent(c),
        c.member_count < u32::MAX,
        crate::circle::is_join_of(c, u, circle, member),
    ensures
        rotation_consistent(circle),
{
}

/// Operations that keep the member list, member count and recipient index
/// keep the rotation bookkeeping consistent.
pub proof fn lemma_member_fields_kept(c: CircleInfo, d: CircleInfo)
    requires
        rotation_consistent(c),
        d.member_addresses@ == c.member_addresses@,
        d.member_count == c.member_count,
        d.current_recipient_index == c.current_recipient_index,
    ensures
        rotation_consistent(d),
{
}

/// The circle after `k` successive payouts.
pub open spec fn circle_after_payouts(c: CircleInfo, k: nat) -> CircleInfo
    decreases k,
{
    if k == 0 {
        c
    } else {
        circle_after_payout(circle_after_payouts(c, (k - 1) as nat))
    }
}

/// After `k` successive payouts the members are unchanged, the recipient
/// index has moved `k` steps round the circle and the round number has
/// grown by `k`.
pub proof fn lemma_successive_payouts(c: CircleInfo, k: nat)
    requires
        c.member_count > 0,
        c.current_recipient_index < c.member_count,
        c.round_number + k <= u32::MAX,
    ensures
        circle_after_payouts(c, k).member_addresses == c.member_addresses,
        circle_after_payouts(c, k).member_count == c.member_count,
        circle_after_payouts(c, k).contribution_amount == c.contribution_amount,
        circle_after_payouts(c, k).current_recipient_index == recipient_after(
            c.current_recipient_index as int,
            c.member_count as int,
            k,
        ),
        circle_after_payouts(c, k).round_number == c.round_number + k,
    decreases k,
{
    let i = c.current_recipient_index as int;
    let n = c.member_count as int;
    if k > 0 {
        lemma_successive_payouts(c, (k - 1) as nat);
        lemma_recipient_after(i, n, (k - 1) as nat);
        let prev = recipient_after(i, n, (k - 1) as nat);
        assert(0 <= (prev + 1) % n < n) by (nonlinear_arith)
            requires n > 0, 0 <= prev;
    }
}

/// A full cycle of payouts: starting from a consistent circle of `n`
/// members that can be paid, the next `n` rounds can all be paid, their
/// recipients are the members at indices `(i + k) % n` for `k` in `0..n`
/// (so each member exactly once), and afterwards the recipient index is back
/// where it started and the round number has grown by `n`.
pub proof fn lemma_full_cycle_pays_each_member_once(c: CircleInfo)
    requires
        rotation_consistent(c),
        can_distribute(c),
        c.round_number + c.member_count + 2 <= u32::MAX,
    ensures
        forall|k: nat|
            k < c.member_count ==> #[trigger] can_distribute(circle_after_payouts(c, k))
                && circle_after_payouts(c, k).current_recipient_index == (
                c.current_recipient_index + k) % (c.member_count as int),
        forall|k1: nat, k2: nat|
            k1 < k2 < c.member_count ==> #[trigger] circle_after_payouts(
                c,
                k1,
            ).current_recipient_index != #[trigger] circle_after_payouts(
                c,
                k2,
            ).current_recipient_index,
        circle_after_payouts(c, c.member_count as nat).current_recipient_index
            == c.current_recipient_index,
        circle_after_payouts(c, c.member_count as nat).round_number == c.round_number
            + c.member_count,
{
    let i = c.current_recipient_index as int;
    let n = c.member_count as int;
    lemma_rotation_pays_each_member_once(i, n);
    assert forall|k: nat| k < c.member_count implies #[trigger] can_distribute(
        circle_after_payouts(c, k),
    ) && circle_after_payouts(c, k).current_recipient_index == (c.current_recipient_index + k)
        % (c.member_count as int) by {
        lemma_successive_payouts(c, k);
        lemma_recipient_after(i, n, k);
    }
    assert forall|k1: nat, k2: nat| k1 < k2 < c.member_count implies #[trigger] circle_after_payouts(
        c,
        k1,
    ).current_recipient_index != #[trigger] circle_after_payouts(c, k2).current_recipient_index by {
        lemma_successive_payouts(c, k1);
        lemma_successive_payouts(c, k2);
        assert(recipient_after(i, n, k1) != recipient_after(i, n, k2));
    }
    lemma_successive_payouts(c, c.member_count as nat);
}

/// Paying out a round opens the next one: whatever the circle's flag was,
/// the round is no longer finalised; the recipient index moves one step
/// (wrapping at the member count, so it stays a valid index), the round
/// number grows by one, and every other field is left as it was.
pub proof fn lemma_payout_opens_next_round(c: CircleInfo)
    requires
        c.member_count > 0,
        c.round_number < u32::MAX,
    ensures
        !circle_after_payout(c).is_round_finalized,
        circle_after_payout(c).current_recipient_index == (c.current_recipient_index + 1)
            % (c.member_count as int),
        circle_after_payout(c).current_recipient_index < c.member_count,
        circle_after_payout(c).round_number == c.round_number + 1,
        circle_after_payout(c).id == c.id,
        circle_after_payout(c).creator == c.creator,
        circle_after_payout(c).contribution_amount == c.contribution_amount,
        circle_after_payout(c).max_members == c.max_members,
        circle_after_payout(c).member_count == c.member_count,
        circle_after_payout(c).member_addresses == c.member_addresses,
        circle_after_payout(c).is_active == c.is_active,
        circle_after_payout(c).token == c.token,
        circle_after_payout(c).deadline_timestamp == c.deadline_timestamp,
        circle_after_payout(c).current_pot_recipient == c.current_pot_recipient,
        circle_after_payout(c).winners_per_round == c.winners_per_round,
        circle_after_payout(c).batch_payout_enabled == c.batch_payout_enabled,
        circle_after_payout(c).recovery_votes_bitmap == c.recovery_votes_bitmap,
{
    let i = c.current_recipient_index as int;
    let n = c.member_count as int;
    assert(0 <= (i + 1) % n < n) by (nonlinear_arith)
        requires n > 0, 0 <= i;
}

/// A finalised round followed by a payout leaves an open round.
pub proof fn lemma_finalized_round_reopened_by_payout(c: CircleInfo)
    requires
        c.is_round_finalized,
    ensures
        !circle_after_payout(c).is_round_finalized,
{
}

/// The immediate share is 70% of the pot rounded toward zero: ten
/// thousand times it is within one basis-point unit of seven thousand
/// times the pot, on the side of zero.
pub proof fn lemma_immediate_share_is_seventy_percent(pot: int)
    ensures
        pot >= 0 ==> 0 <= pot * 7000 - immediate_share(pot) * 10000 < 10000,
        pot < 0 ==> -10000 < pot * 7000 - immediate_share(pot) * 10000 <= 0,
        pot >= 0 ==> 0 <= immediate_share(pot) <= pot,
        pot < 0 ==> pot <= immediate_share(pot) <= 0,
{
    let x = pot * 7000;
    if pot >= 0 {
        assert(x >= 0) by (nonlinear_arith) requires x == pot * 7000, pot >= 0;
        assert(0 <= x - (x / 10000) * 10000 < 10000) by (nonlinear_arith) requires x >= 0;
        assert(x / 10000 <= pot) by (nonlinear_arith) requires x == pot * 7000, pot >= 0;
        assert(x / 10000 >= 0) by (nonlinear_arith) requires x >= 0;
    } else {
        let y = -x;
        assert(y > 0) by (nonlinear_arith) requires x == pot * 7000, pot < 0, y == -x;
        assert(0 <= y - (y / 10000) * 10000 < 10000) by (nonlinear_arith) requires y > 0;
        assert(y / 10000 <= -pot) by (nonlinear_arith) requires y == -(pot * 7000), pot < 0;
        assert(y / 10000 >= 0) by (nonlinear_arith) requires y > 0;
    }
}

/// The deferred tranches of a round: exactly two, both pending, unlocking
/// two and three rounds after the payout round, together worth the rest of
/// the pot, split in halves that differ by at most one unit (the second
/// taking the odd unit).
pub proof fn lemma_deferred_tranches_exact(pot: int, round: u32)
    requires
        i128::MIN <= pot <= i128::MAX,
        i128::MIN <= pot * 7000 <= i128::MAX,
        round + 3 <= u32::MAX,
    ensures
        ({
            let t = deferred_tranches(pot, round);
            let rest = pot - immediate_share(pot);
            &&& t.len() == 2
            &&& t[0].status == TrancheStatus::Pending
            &&& t[1].status == TrancheStatus::Pending
            &&& t[0].unlock_round == round + 2
            &&& t[1].unlock_round == round + 3
            &&& t[0].amount + t[1].amount == rest
            &&& rest >= 0 ==> 0 <= t[1].amount - t[0].amount <= 1
            &&& rest < 0 ==> -1 <= t[1].amount - t[0].amount <= 0
        }),
{
    lemma_trunc_div_bounds(pot * 7000, 10000);
    let rest = pot - immediate_share(pot);
    lemma_trunc_div_bounds(rest, 2);
    if rest >= 0 {
        assert(0 <= rest - 2 * (rest / 2) <= 1) by (nonlinear_arith) requires rest >= 0;
    } else {
        assert(0 <= (-rest) - 2 * ((-rest) / 2) <= 1) by (nonlinear_arith) requires rest < 0;
    }
}

/// The order in which a tranche claim is refused: a defaulted member
/// first, then a tranche that is not pending, then one still locked (with
/// its unlock round); a pending, unlocked tranche claimed by a member in
/// good standing is honoured.
pub proof fn lemma_claim_refusal_cases(status: MemberStatus, round: u32, t: Tranche)
    ensures
        status == MemberStatus::Defaulted ==> claim_refusal(status, round, t) == Some(
            Rejection::DefaultedMemberCannotClaim,
        ),
        status != MemberStatus::Defaulted && t.status != TrancheStatus::Pending ==> claim_refusal(
            status,
            round,
            t,
        ) == Some(Rejection::TrancheNotPending),
        status != MemberStatus::Defaulted && t.status == TrancheStatus::Pending && round
            < t.unlock_round ==> claim_refusal(status, round, t) == Some(
            Rejection::TrancheLocked { unlock_round: t.unlock_round },
        ),
        status != MemberStatus::Defaulted && t.status == TrancheStatus::Pending && round
            >= t.unlock_round ==> claim_refusal(status, round, t) is None,
        claimed(t).status == TrancheStatus::Claimed,
        claimed(t).amount == t.amount,
        claimed(t).unlock_round == t.unlock_round,
        t.status == TrancheStatus::Pending ==> clawed_back(t).status == TrancheStatus::ClawedBack,
        clawed_back(t).amount == t.amount,
        clawed_back(t).unlock_round == t.unlock_round,
{
}

} // verus!
