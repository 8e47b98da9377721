use vstd::prelude::*;
use crate::payout::{fee_due, settlement};
use crate::state::{
    title_len, Address, BetSide, ErrorCode, Market, MarketStatus, Position, MAX_FEE_BPS,
    MAX_TITLE_LEN,
};

verus! {

/// The first rule a new market's parameters break, checked in the order
/// fee, title, end of betting, deadline; `None` when all hold.
pub open spec fn init_error(
    fee_bps: u16,
    end_ts: i64,
    resolve_deadline_ts: i64,
    title: Seq<char>,
    now: i64,
) -> Option<ErrorCode> {
    if fee_bps > MAX_FEE_BPS {
        Some(ErrorCode::FeeTooHigh)
    } else if title_len(title) > MAX_TITLE_LEN {
        Some(ErrorCode::TitleTooLong)
    } else if end_ts <= now {
        Some(ErrorCode::EndTimeInPast)
    } else if resolve_deadline_ts <= end_ts {
        Some(ErrorCode::InvalidDeadline)
    } else {
        None
    }
}

/// `m` with `amount` added to the aggregate of `side`.
pub open spec fn with_stake(m: Market, side: BetSide, amount: u64) -> Market {
    match side {
        BetSide::A => Market { staked_a: (m.staked_a + amount) as u64, ..m },
        BetSide::B => Market { staked_b: (m.staked_b + amount) as u64, ..m },
    }
}

/// Market and position after `user` stakes `amount` on `side` at time `now`.
pub open spec fn after_bet(
    m: Market,
    p: Position,
    user: Address,
    side: BetSide,
    amount: u64,
    now: i64,
    bump: u8,
) -> Result<(Market, Position), ErrorCode> {
    if m.status != MarketStatus::Open {
        Err(ErrorCode::MarketNotOpen)
    } else if now >= m.end_ts {
        Err(ErrorCode::BettingClosed)
    } else if amount == 0 {
        Err(ErrorCode::InvalidAmount)
    } else if m.stake_on(side) + amount > u64::MAX || p.amount + amount > u64::MAX {
        Err(ErrorCode::Overflow)
    } else {
        Ok(
            (
                with_stake(m, side, amount),
                Position {
                    owner: user,
                    side,
                    amount: (p.amount + amount) as u64,
                    claimed: false,
                    bump,
                },
            ),
        )
    }
}

/// Market after betting is closed at time `now`.
pub open spec fn after_close(m: Market, now: i64) -> Result<Market, ErrorCode> {
    if m.status != MarketStatus::Open {
        Err(ErrorCode::MarketNotOpen)
    } else if now < m.end_ts {
        Err(ErrorCode::BettingNotEnded)
    } else {
        Ok(Market { status: MarketStatus::PendingResolve, ..m })
    }
}

/// Market after `caller` reports `outcome` at time `now`.
pub open spec fn after_resolve(m: Market, caller: Address, outcome: BetSide, now: i64) -> Result<
    Market,
    ErrorCode,
> {
    if m.status != MarketStatus::PendingResolve {
        Err(ErrorCode::MarketNotPendingResolve)
    } else if caller != m.creator {
        Err(ErrorCode::UnauthorizedResolver)
    } else if now >= m.resolve_deadline_ts {
        Err(ErrorCode::ResolutionDeadlinePassed)
    } else {
        Ok(Market { status: MarketStatus::Resolved, outcome: Some(outcome), ..m })
    }
}

/// Market after anyone cancels it for a missed resolution at time `now`.
pub open spec fn after_cancel(m: Market, now: i64) -> Result<Market, ErrorCode> {
    if m.status != MarketStatus::PendingResolve {
        Err(ErrorCode::MarketNotPendingResolve)
    } else if now < m.resolve_deadline_ts {
        Err(ErrorCode::ResolutionNotExpired)
    } else {
        Ok(Market { status: MarketStatus::Cancelled, ..m })
    }
}

/// Position after `user` claims it, with the amount paid out of the vault.
pub open spec fn after_claim(m: Market, p: Position, user: Address) -> Result<
    (Position, u64),
    ErrorCode,
> {
    if !(m.status == MarketStatus::Resolved || m.status == MarketStatus::Cancelled) {
        Err(ErrorCode::MarketNotFinalized)
    } else if p.claimed {
        Err(ErrorCode::AlreadyClaimed)
    } else if p.owner != user {
        Err(ErrorCode::UnauthorizedClaim)
    } else {
        match settlement(m, p) {
            Err(e) => Err(e),
            Ok(payout) => Ok((Position { claimed: true, ..p }, payout)),
        }
    }
}

/// Market after `caller` withdraws the platform fee, with the amount paid
/// out of the vault.
pub open spec fn after_withdraw(m: Market, caller: Address) -> Result<(Market, u64), ErrorCode> {
    if m.status != MarketStatus::Resolved {
        Err(ErrorCode::MarketNotResolved)
    } else if caller != m.creator {
        Err(ErrorCode::UnauthorizedWithdrawal)
    } else if m.creator_fee_withdrawn {
        Err(ErrorCode::FeeAlreadyWithdrawn)
    } else {
        match fee_due(m.staked_a, m.staked_b, m.fee_bps) {
            Err(e) => Err(e),
            Ok(fee) => Ok((Market { creator_fee_withdrawn: true, ..m }, fee)),
        }
    }
}

} // verus!
