use vstd::prelude::*;
use crate::state::{BetSide, ErrorCode, Market, MarketStatus, Position, BPS_DENOMINATOR};

verus! {

/// `floor(total * fee_bps / 10000)`: the platform's cut of a pool.
pub open spec fn fee_of(total: int, fee_bps: int) -> int {
    total * fee_bps / (BPS_DENOMINATOR as int)
}

/// `floor(distributable * amount / winning_total)`: one winner's pro-rata share.
pub open spec fn share_of(distributable: int, amount: int, winning_total: int) -> int {
    distributable * amount / winning_total
}

/// The two side aggregates added, when the sum fits 64 bits.
pub open spec fn pool_of(staked_a: u64, staked_b: u64) -> Result<u64, ErrorCode> {
    if staked_a + staked_b > u64::MAX {
        Err(ErrorCode::Overflow)
    } else {
        Ok((staked_a + staked_b) as u64)
    }
}

/// The fee owed on a market with the given aggregates and rate.
pub open spec fn fee_due(staked_a: u64, staked_b: u64, fee_bps: u16) -> Result<u64, ErrorCode> {
    match pool_of(staked_a, staked_b) {
        Err(e) => Err(e),
        Ok(total) => if fee_of(total as int, fee_bps as int) > u64::MAX {
            Err(ErrorCode::Overflow)
        } else {
            Ok(fee_of(total as int, fee_bps as int) as u64)
        },
    }
}

/// What a position is paid when it claims on a finalized market: a full
/// refund on cancellation, nothing for a losing side, and otherwise a
/// pro-rata share of the pool after the fee. When nobody staked on the
/// winning side, no position is owed that pool and it stays in the vault.
pub open spec fn settlement(m: Market, p: Position) -> Result<u64, ErrorCode> {
    if m.status == MarketStatus::Cancelled {
        Ok(p.amount)
    } else if m.outcome != Some(p.side) {
        Ok(0)
    } else {
        match fee_due(m.staked_a, m.staked_b, m.fee_bps) {
            Err(e) => Err(e),
            Ok(fee) => {
                let total = m.staked_a + m.staked_b;
                let winning_total = m.stake_on(p.side);
                if total < fee {
                    Err(ErrorCode::Underflow)
                } else if winning_total == 0 {
                    Ok(0)
                } else if share_of(total - fee, p.amount as int, winning_total as int) > u64::MAX {
                    Err(ErrorCode::Overflow)
                } else {
                    Ok(share_of(total - fee, p.amount as int, winning_total as int) as u64)
                }
            },
        }
    }
}

/// Adds the two side aggregates, rejecting a sum that does not fit 64 bits.
pub fn total_staked(staked_a: u64, staked_b: u64) -> (r: Result<u64, ErrorCode>)
    ensures
        r == pool_of(staked_a, staked_b),
{
    match staked_a.checked_add(staked_b) {
        Some(t) => Ok(t),
        None => Err(ErrorCode::Overflow),
    }
}

/// The platform fee on a market with the given aggregates and rate, computed
/// with a 128-bit intermediate and rounded down.
pub fn creator_fee(staked_a: u64, staked_b: u64, fee_bps: u16) -> (r: Result<u64, ErrorCode>)
    ensures
        r == fee_due(staked_a, staked_b, fee_bps),
{
    let total = match total_staked(staked_a, staked_b) {
        Ok(t) => t,
        Err(e) => return Err(e),
    };
    let t = total as u128;
    let b = fee_bps as u128;
    assert(t * b <= 0xffff_ffff_ffff_ffffu128 * 0xffffu128) by (nonlinear_arith)
        requires
            t <= 0xffff_ffff_ffff_ffffu128,
            b <= 0xffffu128,
    ;
    let fee = t * b / BPS_DENOMINATOR;
    if fee > u64::MAX as u128 {
        Err(ErrorCode::Overflow)
    } else {
        Ok(fee as u64)
    }
}

/// What `position` is paid on claiming against the finalized `market`; see
/// [`settlement`].
pub fn payout_amount(market: &Market, position: &Position) -> (r: Result<u64, ErrorCode>)
    requires
        market.status == MarketStatus::Resolved || market.status == MarketStatus::Cancelled,
    ensures
        r == settlement(*market, *position),
{
    if market.status == MarketStatus::Cancelled {
        return Ok(position.amount);
    }
    let outcome = match market.outcome {
        Some(side) => side,
        None => return Ok(0),
    };
    if position.side != outcome {
        return Ok(0);
    }
    let fee = match creator_fee(market.staked_a, market.staked_b, market.fee_bps) {
        Ok(f) => f,
        Err(e) => return Err(e),
    };
    let total = (market.staked_a + market.staked_b) as u64;
    if total < fee {
        return Err(ErrorCode::Underflow);
    }
    let distributable = total - fee;
    let winning_total = market.side_total(outcome);
    if winning_total == 0 {
        return Ok(0);
    }
    let d = distributable as u128;
    let a = position.amount as u128;
    assert(d * a <= 0xffff_ffff_ffff_ffffu128 * 0xffff_ffff_ffff_ffffu128) by (nonlinear_arith)
        requires
            d <= 0xffff_ffff_ffff_ffffu128,
            a <= 0xffff_ffff_ffff_ffffu128,
    ;
    let share = d * a / (winning_total as u128);
    if share > u64::MAX as u128 {
        Err(ErrorCode::Overflow)
    } else {
        Ok(share as u64)
    }
}

} // verus!
