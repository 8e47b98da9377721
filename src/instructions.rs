use vstd::prelude::*;
use crate::lifecycle::{
    after_bet, after_cancel, after_claim, after_close, after_resolve, after_withdraw, init_error,
};
use crate::payout::{creator_fee, payout_amount};
use crate::state::{
    Address, BetSide, ErrorCode, Market, MarketStatus, Position, MAX_FEE_BPS, MAX_TITLE_LEN,
};

verus! {

/// Accounts of a market being created: its creator, its own address, the
/// token type it escrows, its vault, and the derivation bumps of the market
/// and vault addresses.
#[derive(Clone, Copy, Debug)]
pub struct InitializeMarket {
    pub creator: Address,
    pub market_key: Address,
    pub mint: Address,
    pub vault: Address,
    pub market_bump: u8,
    pub vault_bump: u8,
}

/// Accounts of a bet: the bettor, the market, and the bettor's position in
/// it (an empty one on a first bet) with its derivation bump.
pub struct PlaceBet {
    pub user: Address,
    pub market_key: Address,
    pub market: Market,
    pub position: Position,
    pub position_bump: u8,
}

/// Accounts of closing a market's betting window.
pub struct CloseBetting {
    pub market_key: Address,
    pub market: Market,
}

/// Accounts of reporting an outcome: the signer and the market.
pub struct Resolve {
    pub creator: Address,
    pub market_key: Address,
    pub market: Market,
}

/// Accounts of cancelling a market whose resolution window has lapsed.
pub struct CancelExpired {
    pub market_key: Address,
    pub market: Market,
}

/// Accounts of a claim: the signer, the finalized market and the position.
pub struct Claim {
    pub user: Address,
    pub market_key: Address,
    pub market: Market,
    pub position: Position,
}

/// Accounts of a fee withdrawal: the signer and the market.
pub struct WithdrawCreatorFee {
    pub creator: Address,
    pub market_key: Address,
    pub market: Market,
}

/// Notice of a new market.
#[derive(Debug)]
pub struct MarketInitialized {
    pub market: Address,
    pub creator: Address,
    pub title: String,
    pub fee_bps: u16,
    pub end_ts: i64,
    pub resolve_deadline_ts: i64,
}

/// Notice of a stake; `amount` moves from the bettor into the vault.
#[derive(Clone, Copy, Debug)]
pub struct BetPlaced {
    pub market: Address,
    pub user: Address,
    pub side: BetSide,
    pub amount: u64,
}

/// Notice that betting has closed.
#[derive(Clone, Copy, Debug)]
pub struct BettingClosed {
    pub market: Address,
}

/// Notice of a reported outcome.
#[derive(Clone, Copy, Debug)]
pub struct Resolved {
    pub market: Address,
    pub outcome: BetSide,
}

/// Notice of a cancellation.
#[derive(Clone, Copy, Debug)]
pub struct Cancelled {
    pub market: Address,
}

/// Notice of a settled position; `amount` moves from the vault to the user.
#[derive(Clone, Copy, Debug)]
pub struct Claimed {
    pub market: Address,
    pub user: Address,
    pub amount: u64,
}

/// Notice of a fee withdrawal; `amount` moves from the vault to the creator.
#[derive(Clone, Copy, Debug)]
pub struct CreatorFeeWithdrawn {
    pub market: Address,
    pub creator: Address,
    pub amount: u64,
}

/// The market record that a successful initialization writes.
pub open spec fn new_market(
    ctx: InitializeMarket,
    fee_bps: u16,
    end_ts: i64,
    resolve_deadline_ts: i64,
    title: String,
) -> Market {
    Market {
        creator: ctx.creator,
        mint: ctx.mint,
        vault: ctx.vault,
        fee_bps,
        end_ts,
        resolve_deadline_ts,
        staked_a: 0,
        staked_b: 0,
        status: MarketStatus::Open,
        outcome: None,
        creator_fee_withdrawn: false,
        bump: ctx.market_bump,
        vault_bump: ctx.vault_bump,
        title,
    }
}

/// Creates an open market with empty pools, after checking the fee cap, the
/// title length, that betting ends after `now`, and that the resolution
/// deadline comes after the end of betting.
pub fn initialize_market(
    ctx: &InitializeMarket,
    fee_bps: u16,
    end_ts: i64,
    resolve_deadline_ts: i64,
    title: String,
    now: i64,
) -> (r: Result<(Market, MarketInitialized), ErrorCode>)
    ensures
        match init_error(fee_bps, end_ts, resolve_deadline_ts, title@, now) {
            Some(e) => r == Err::<(Market, MarketInitialized), ErrorCode>(e),
            None => r matches Ok((m, ev)) && m == new_market(
                *ctx,
                fee_bps,
                end_ts,
                resolve_deadline_ts,
                title,
            ) && m.wf() && ev.market == ctx.market_key && ev.creator == ctx.creator
                && ev.title@ == title@ && ev.fee_bps == fee_bps && ev.end_ts == end_ts
                && ev.resolve_deadline_ts == resolve_deadline_ts,
        },
{
    if fee_bps > MAX_FEE_BPS {
        return Err(ErrorCode::FeeTooHigh);
    }
    if title.as_str().as_bytes().len() > MAX_TITLE_LEN {
        return Err(ErrorCode::TitleTooLong);
    }
    if end_ts <= now {
        return Err(ErrorCode::EndTimeInPast);
    }
    if resolve_deadline_ts <= end_ts {
        return Err(ErrorCode::InvalidDeadline);
    }
    let event = MarketInitialized {
        market: ctx.market_key,
        creator: ctx.creator,
        title: title.clone(),
        fee_bps,
        end_ts,
        resolve_deadline_ts,
    };
    let market = Market {
        creator: ctx.creator,
        mint: ctx.mint,
        vault: ctx.vault,
        fee_bps,
        end_ts,
        resolve_deadline_ts,
        staked_a: 0,
        staked_b: 0,
        status: MarketStatus::Open,
        outcome: None,
        creator_fee_withdrawn: false,
        bump: ctx.market_bump,
        vault_bump: ctx.vault_bump,
        title,
    };
    Ok((market, event))
}

/// Stakes `amount` on `side`: adds it to that side's aggregate and to the
/// bettor's position, whose side label becomes `side`. On success the
/// returned notice's `amount` is what moves from the bettor into the vault;
/// on failure nothing changes and nothing moves.
pub fn place_bet(ctx: &mut PlaceBet, side: BetSide, amount: u64, now: i64) -> (r: Result<
    BetPlaced,
    ErrorCode,
>)
    ensures
        match after_bet(
            old(ctx).market,
            old(ctx).position,
            old(ctx).user,
            side,
            amount,
            now,
            old(ctx).position_bump,
        ) {
            Ok((m, p)) => r == Ok::<BetPlaced, ErrorCode>(
                BetPlaced { market: old(ctx).market_key, user: old(ctx).user, side, amount },
            ) && *final(ctx) == (PlaceBet { market: m, position: p, ..*old(ctx) }),
            Err(e) => r == Err::<BetPlaced, ErrorCode>(e) && *final(ctx) == *old(ctx),
        },
        old(ctx).market.wf() ==> final(ctx).market.wf(),
{
    if ctx.market.status != MarketStatus::Open {
        return Err(ErrorCode::MarketNotOpen);
    }
    if now >= ctx.market.end_ts {
        return Err(ErrorCode::BettingClosed);
    }
    if amount == 0 {
        return Err(ErrorCode::InvalidAmount);
    }
    let side_total = match ctx.market.side_total(side).checked_add(amount) {
        Some(t) => t,
        None => return Err(ErrorCode::Overflow),
    };
    let position_total = match ctx.position.amount.checked_add(amount) {
        Some(t) => t,
        None => return Err(ErrorCode::Overflow),
    };
    match side {
        BetSide::A => ctx.market.staked_a = side_total,
        BetSide::B => ctx.market.staked_b = side_total,
    }
    ctx.position = Position {
        owner: ctx.user,
        side,
        amount: position_total,
        claimed: false,
        bump: ctx.position_bump,
    };
    Ok(BetPlaced { market: ctx.market_key, user: ctx.user, side, amount })
}

/// Ends the betting window: an open market whose end time has come moves to
/// awaiting resolution.
pub fn close_betting(ctx: &mut CloseBetting, now: i64) -> (r: Result<BettingClosed, ErrorCode>)
    ensures
        match after_close(old(ctx).market, now) {
            Ok(m) => r == Ok::<BettingClosed, ErrorCode>(BettingClosed { market: old(ctx).market_key })
                && *final(ctx) == (CloseBetting { market: m, ..*old(ctx) }),
            Err(e) => r == Err::<BettingClosed, ErrorCode>(e) && *final(ctx) == *old(ctx),
        },
        old(ctx).market.wf() ==> final(ctx).market.wf(),
{
    if ctx.market.status != MarketStatus::Open {
        return Err(ErrorCode::MarketNotOpen);
    }
    if now < ctx.market.end_ts {
        return Err(ErrorCode::BettingNotEnded);
    }
    ctx.market.status = MarketStatus::PendingResolve;
    Ok(BettingClosed { market: ctx.market_key })
}

/// Records the creator's report of `outcome`, before the resolution deadline.
pub fn resolve(ctx: &mut Resolve, outcome: BetSide, now: i64) -> (r: Result<Resolved, ErrorCode>)
    ensures
        match after_resolve(old(ctx).market, old(ctx).creator, outcome, now) {
            Ok(m) => r == Ok::<Resolved, ErrorCode>(
                Resolved { market: old(ctx).market_key, outcome },
            ) && *final(ctx) == (Resolve { market: m, ..*old(ctx) }),
            Err(e) => r == Err::<Resolved, ErrorCode>(e) && *final(ctx) == *old(ctx),
        },
        old(ctx).market.wf() ==> final(ctx).market.wf(),
{
    if ctx.market.status != MarketStatus::PendingResolve {
        return Err(ErrorCode::MarketNotPendingResolve);
    }
    if ctx.creator != ctx.market.creator {
        return Err(ErrorCode::UnauthorizedResolver);
    }
    if now >= ctx.market.resolve_deadline_ts {
        return Err(ErrorCode::ResolutionDeadlinePassed);
    }
    ctx.market.status = MarketStatus::Resolved;
    ctx.market.outcome = Some(outcome);
    Ok(Resolved { market: ctx.market_key, outcome })
}

/// Cancels a market left unresolved past its deadline; anyone may call it.
pub fn cancel_expired(ctx: &mut CancelExpired, now: i64) -> (r: Result<Cancelled, ErrorCode>)
    ensures
        match after_cancel(old(ctx).market, now) {
            Ok(m) => r == Ok::<Cancelled, ErrorCode>(Cancelled { market: old(ctx).market_key })
                && *final(ctx) == (CancelExpired { market: m, ..*old(ctx) }),
            Err(e) => r == Err::<Cancelled, ErrorCode>(e) && *final(ctx) == *old(ctx),
        },
        old(ctx).market.wf() ==> final(ctx).market.wf(),
{
    if ctx.market.status != MarketStatus::PendingResolve {
        return Err(ErrorCode::MarketNotPendingResolve);
    }
    if now < ctx.market.resolve_deadline_ts {
        return Err(ErrorCode::ResolutionNotExpired);
    }
    ctx.market.status = MarketStatus::Cancelled;
    Ok(Cancelled { market: ctx.market_key })
}

/// Settles the caller's position on a finalized market and marks it claimed.
/// The returned notice's `amount` is what moves from the vault to the caller
/// (nothing moves when it is zero); on failure nothing changes.
pub fn claim(ctx: &mut Claim) -> (r: Result<Claimed, ErrorCode>)
    ensures
        match after_claim(old(ctx).market, old(ctx).position, old(ctx).user) {
            Ok((p, payout)) => r == Ok::<Claimed, ErrorCode>(
                Claimed { market: old(ctx).market_key, user: old(ctx).user, amount: payout },
            ) && *final(ctx) == (Claim { position: p, ..*old(ctx) }),
            Err(e) => r == Err::<Claimed, ErrorCode>(e) && *final(ctx) == *old(ctx),
        },
{
    if !(ctx.market.status == MarketStatus::Resolved || ctx.market.status
        == MarketStatus::Cancelled) {
        return Err(ErrorCode::MarketNotFinalized);
    }
    if ctx.position.claimed {
        return Err(ErrorCode::AlreadyClaimed);
    }
    if ctx.position.owner != ctx.user {
        return Err(ErrorCode::UnauthorizedClaim);
    }
    let payout = match payout_amount(&ctx.market, &ctx.position) {
        Ok(v) => v,
        Err(e) => return Err(e),
    };
    ctx.position.claimed = true;
    Ok(Claimed { market: ctx.market_key, user: ctx.user, amount: payout })
}

/// Pays the platform fee of a resolved market to its creator, once. The
/// returned notice's `amount` is what moves from the vault to the creator
/// (nothing moves when it is zero); on failure nothing changes.
pub fn withdraw_creator_fee(ctx: &mut WithdrawCreatorFee) -> (r: Result<
    CreatorFeeWithdrawn,
    ErrorCode,
>)
    ensures
        match after_withdraw(old(ctx).market, old(ctx).creator) {
            Ok((m, fee)) => r == Ok::<CreatorFeeWithdrawn, ErrorCode>(
                CreatorFeeWithdrawn {
                    market: old(ctx).market_key,
                    creator: old(ctx).creator,
                    amount: fee,
                },
            ) && *final(ctx) == (WithdrawCreatorFee { market: m, ..*old(ctx) }),
            Err(e) => r == Err::<CreatorFeeWithdrawn, ErrorCode>(e) && *final(ctx) == *old(ctx),
        },
        old(ctx).market.wf() ==> final(ctx).market.wf(),
{
    if ctx.market.status != MarketStatus::Resolved {
        return Err(ErrorCode::MarketNotResolved);
    }
    if ctx.creator != ctx.market.creator {
        return Err(ErrorCode::UnauthorizedWithdrawal);
    }
    if ctx.market.creator_fee_withdrawn {
        return Err(ErrorCode::FeeAlreadyWithdrawn);
    }
    let fee = match creator_fee(ctx.market.staked_a, ctx.market.staked_b, ctx.market.fee_bps) {
        Ok(f) => f,
        Err(e) => return Err(e),
    };
    ctx.market.creator_fee_withdrawn = true;
    Ok(CreatorFeeWithdrawn { market: ctx.market_key, creator: ctx.creator, amount: fee })
}

} // verus!
