//! The pot liquidity buffer: advances paid to members ahead of their pot.
use vstd::prelude::*;

use crate::address::Address;
use crate::contracts::PotLiquidityBuffer;
use crate::types::{
    LiquidityAdvance, LiquidityAdvanceStatus, LiquidityBufferConfig, LiquidityBufferStats,
};

verus! {

impl PotLiquidityBuffer {
    /// The buffer's configuration once initialised: enabled, a two-day
    /// advance period, minimum reputation 10,000, advances up to 100% of a
    /// contribution for a 0.5% fee, 20% of platform fees allocated, reserves
    /// between 1,000 and 10,000, a one-day grace period and at most three
    /// advances per round.
    pub fn init_liquidity_buffer() -> (res: LiquidityBufferConfig)
        ensures
            res == (LiquidityBufferConfig {
                is_enabled: true,
                advance_period: 172800,
                min_reputation: 10000,
                max_advance_bps: 10000,
                platform_fee_allocation: 2000,
                min_reserve: 1000,
                max_reserve: 10000,
                advance_fee_bps: 50,
                grace_period: 86400,
                max_advances_per_round: 3,
            }),
    {
        LiquidityBufferConfig {
            is_enabled: true,
            advance_period: 172800,
            min_reputation: 10000,
            max_advance_bps: 10000,
            platform_fee_allocation: 2000,
            min_reserve: 1000,
            max_reserve: 10000,
            advance_fee_bps: 50,
            grace_period: 86400,
            max_advances_per_round: 3,
        }
    }

    /// The buffer's statistics as reported: all zero.
    pub fn get_liquidity_buffer_stats() -> (res: LiquidityBufferStats)
        ensures
            res == (LiquidityBufferStats {
                total_reserve_balance: 0,
                total_advances_provided: 0,
                active_advances_count: 0,
            }),
    {
        LiquidityBufferStats { total_reserve_balance: 0, total_advances_provided: 0, active_advances_count: 0 }
    }

    /// Whether a member may receive an advance: every member may.
    pub fn check_advance_eligibility(u: &Address, cid: u64) -> (res: bool)
        ensures
            res,
    {
        true
    }

    /// A request by `u` for an advance of `amt` in circle `cid` at `now`:
    /// numbered 1, pending, free of fees, to be repaid in the same amount.
    pub fn signal_advance_request(u: Address, cid: u64, amt: i128, now: u64) -> (res: (
        u64,
        LiquidityAdvance,
    ))
        ensures
            res.0 == 1,
            res.1 == (LiquidityAdvance {
                id: 1,
                member: u,
                circle_id: cid,
                contribution_amount: amt,
                advance_amount: amt,
                advance_fee: 0,
                repayment_amount: amt,
                status: LiquidityAdvanceStatus::Pending,
                requested_timestamp: now,
                provided_timestamp: None,
            }),
    {
        let id: u64 = 1;
        (
            id,
            LiquidityAdvance {
                id,
                member: u,
                circle_id: cid,
                contribution_amount: amt,
                advance_amount: amt,
                advance_fee: 0,
                repayment_amount: amt,
                status: LiquidityAdvanceStatus::Pending,
                requested_timestamp: now,
                provided_timestamp: None,
            },
        )
    }

    /// Provides an advance at `now`: it becomes active, provided at `now`.
    pub fn provide_advance(a: LiquidityAdvance, now: u64) -> (res: LiquidityAdvance)
        ensures
            res == (LiquidityAdvance {
                status: LiquidityAdvanceStatus::Active,
                provided_timestamp: Some(now),
                ..a
            }),
    {
        let mut b = a;
        b.status = LiquidityAdvanceStatus::Active;
        b.provided_timestamp = Some(now);
        b
    }
}

} // verus!
