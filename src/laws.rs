//! Properties that relate several operations, or one operation over all of
//! its inputs, proved over the transition functions that the operations'
//! contracts are stated in.
use vstd::prelude::*;
use vstd::arithmetic::div_mod::{
    lemma_div_is_ordered, lemma_div_multiples_vanish, lemma_fundamental_div_mod,
};
use crate::lifecycle::{
    after_bet, after_cancel, after_claim, after_close, after_resolve, after_withdraw,
};
use crate::payout::{fee_due, settlement, share_of};
use crate::state::{Address, BetSide, ErrorCode, Market, MarketStatus, Position};

verus! {

/// The side other than `side`.
pub open spec fn other_side(side: BetSide) -> BetSide {
    match side {
        BetSide::A => BetSide::B,
        BetSide::B => BetSide::A,
    }
}

/// A bet of a positive amount on an open market before the end of betting
/// (and within 64-bit range) succeeds, raises the chosen side's aggregate
/// and the position's amount by exactly that amount, leaves the other
/// side's aggregate alone, and labels the position with the chosen side.
pub proof fn lemma_bet_adds_stake(
    m: Market,
    p: Position,
    user: Address,
    side: BetSide,
    amount: u64,
    now: i64,
    bump: u8,
)
    requires
        m.status == MarketStatus::Open,
        now < m.end_ts,
        amount > 0,
        m.stake_on(side) + amount <= u64::MAX,
        p.amount + amount <= u64::MAX,
    ensures
        after_bet(m, p, user, side, amount, now, bump) matches Ok((m2, p2)) && m2.stake_on(side)
            == m.stake_on(side) + amount && m2.stake_on(other_side(side)) == m.stake_on(
            other_side(side),
        ) && p2.amount == p.amount + amount && p2.side == side && p2.owner == user
            && m2.status == m.status,
{
}

/// A bet after the end of betting, or on a market that is no longer open,
/// is rejected; the operation's contract then leaves every record as it was
/// and moves no funds.
pub proof fn lemma_bet_rejected_when_closed(
    m: Market,
    p: Position,
    user: Address,
    side: BetSide,
    amount: u64,
    now: i64,
    bump: u8,
)
    requires
        now >= m.end_ts || m.status != MarketStatus::Open,
    ensures
        after_bet(m, p, user, side, amount, now, bump) is Err,
        m.status != MarketStatus::Open ==> after_bet(m, p, user, side, amount, now, bump) == Err::<
            (Market, Position),
            ErrorCode,
        >(ErrorCode::MarketNotOpen),
        m.status == MarketStatus::Open ==> after_bet(m, p, user, side, amount, now, bump) == Err::<
            (Market, Position),
            ErrorCode,
        >(ErrorCode::BettingClosed),
{
}

/// On an open market, closing fails with `BettingNotEnded` before the end
/// of betting and succeeds from then on; once closed, closing again fails
/// with `MarketNotOpen`.
pub proof fn lemma_close_exactly_once(m: Market, now: i64, later: i64)
    requires
        m.status == MarketStatus::Open,
    ensures
        now < m.end_ts ==> after_close(m, now) == Err::<Market, ErrorCode>(
            ErrorCode::BettingNotEnded,
        ),
        now >= m.end_ts ==> (after_close(m, now) matches Ok(m2) && m2.status
            == MarketStatus::PendingResolve && after_close(m2, later) == Err::<Market, ErrorCode>(
            ErrorCode::MarketNotOpen,
        )),
{
}

/// On a market awaiting resolution, a report by anyone but the creator
/// fails with `UnauthorizedResolver`, one by the creator at or after the
/// deadline fails with `ResolutionDeadlinePassed`, and one by the creator
/// before it records the outcome and resolves the market.
pub proof fn lemma_resolve_gate(m: Market, caller: Address, outcome: BetSide, now: i64)
    requires
        m.status == MarketStatus::PendingResolve,
    ensures
        caller != m.creator ==> after_resolve(m, caller, outcome, now) == Err::<Market, ErrorCode>(
            ErrorCode::UnauthorizedResolver,
        ),
        caller == m.creator && now >= m.resolve_deadline_ts ==> after_resolve(
            m,
            caller,
            outcome,
            now,
        ) == Err::<Market, ErrorCode>(ErrorCode::ResolutionDeadlinePassed),
        caller == m.creator && now < m.resolve_deadline_ts ==> after_resolve(
            m,
            caller,
            outcome,
            now,
        ) is Ok,
        caller == m.creator && now < m.resolve_deadline_ts ==> after_resolve(
            m,
            caller,
            outcome,
            now,
        )->Ok_0.status == MarketStatus::Resolved,
        caller == m.creator && now < m.resolve_deadline_ts ==> after_resolve(
            m,
            caller,
            outcome,
            now,
        )->Ok_0.outcome == Some(outcome),
{
}

/// Cancellation fails with `ResolutionNotExpired` before the resolution
/// deadline; at or after it, a market awaiting resolution becomes cancelled.
pub proof fn lemma_cancel_gate(m: Market, now: i64)
    ensures
        m.status == MarketStatus::PendingResolve && now < m.resolve_deadline_ts ==> after_cancel(
            m,
            now,
        ) == Err::<Market, ErrorCode>(ErrorCode::ResolutionNotExpired),
        m.status == MarketStatus::PendingResolve && now >= m.resolve_deadline_ts ==> after_cancel(
            m,
            now,
        ) is Ok,
        m.status == MarketStatus::PendingResolve && now >= m.resolve_deadline_ts ==> after_cancel(
            m,
            now,
        )->Ok_0.status == MarketStatus::Cancelled,
        m.status != MarketStatus::PendingResolve ==> after_cancel(m, now) is Err,
{
}

/// A claim on a cancelled market refunds exactly the position's amount,
/// whichever side the position is on.
pub proof fn lemma_cancelled_refund(m: Market, p: Position, user: Address, side: BetSide)
    requires
        m.status == MarketStatus::Cancelled,
        !p.claimed,
        p.owner == user,
    ensures
        after_claim(m, p, user) matches Ok((p2, payout)) && payout == p.amount && p2.claimed,
        after_claim(m, Position { side, ..p }, user) matches Ok((_, payout)) && payout == p.amount,
{
}

/// Once a claim has succeeded, claiming the same position again, by anyone,
/// fails with `AlreadyClaimed` (and the operation's contract moves no funds
/// on failure).
pub proof fn lemma_claim_once(m: Market, p: Position, user: Address, again: Address)
    requires
        after_claim(m, p, user) is Ok,
    ensures
        after_claim(m, after_claim(m, p, user)->Ok_0.0, again) == Err::<(Position, u64), ErrorCode>(
            ErrorCode::AlreadyClaimed,
        ),
{
}

/// The fee withdrawal is independent of the claims: a claim leaves the
/// market record untouched, so the fee withdrawn after it is the fee
/// withdrawn before it, and a claim after the withdrawal pays what it would
/// have paid before. Hence the vault holds the same residual either way.
pub proof fn lemma_fee_independent_of_claims(
    m: Market,
    p: Position,
    user: Address,
    creator: Address,
    vault: int,
)
    requires
        after_withdraw(m, creator) is Ok,
        after_claim(m, p, user) is Ok,
    ensures
        ({
            let (m1, fee) = after_withdraw(m, creator)->Ok_0;
            let payout = after_claim(m, p, user)->Ok_0.1;
            &&& fee == fee_due(m.staked_a, m.staked_b, m.fee_bps)->Ok_0
            &&& after_claim(m1, p, user) == after_claim(m, p, user)
            &&& settlement(m1, p) == settlement(m, p)
            &&& vault - fee - payout == vault - payout - fee
        }),
{
}

/// Sum of a sequence of stakes.
pub open spec fn sum_of(amounts: Seq<u64>) -> int
    decreases amounts.len(),
{
    if amounts.len() == 0 {
        0
    } else {
        sum_of(amounts.drop_last()) + amounts.last()
    }
}

/// Sum of the pro-rata shares of `distributable` that stakes `amounts` earn
/// against a winning aggregate of `winning_total`.
pub open spec fn sum_of_shares(distributable: int, amounts: Seq<u64>, winning_total: int) -> int
    decreases amounts.len(),
{
    if amounts.len() == 0 {
        0
    } else {
        sum_of_shares(distributable, amounts.drop_last(), winning_total) + share_of(
            distributable,
            amounts.last() as int,
            winning_total,
        )
    }
}

proof fn lemma_floor_sum(x: int, y: int, w: int)
    requires
        x >= 0,
        y >= 0,
        w > 0,
    ensures
        x / w + y / w <= (x + y) / w,
{
    lemma_fundamental_div_mod(x, w);
    lemma_fundamental_div_mod(y, w);
    let q = x / w + y / w;
    assert(w * q <= x + y) by (nonlinear_arith)
        requires
            x == w * (x / w) + x % w,
            y == w * (y / w) + y % w,
            x % w >= 0,
            y % w >= 0,
            q == x / w + y / w,
    ;
    lemma_div_is_ordered(w * q, x + y, w);
    lemma_div_multiples_vanish(q, w);
}

proof fn lemma_shares_within(distributable: int, amounts: Seq<u64>, winning_total: int)
    requires
        distributable >= 0,
        winning_total > 0,
    ensures
        sum_of_shares(distributable, amounts, winning_total) <= distributable * sum_of(amounts)
            / winning_total,
    decreases amounts.len(),
{
    if amounts.len() > 0 {
        let rest = amounts.drop_last();
        let a = amounts.last() as int;
        lemma_shares_within(distributable, rest, winning_total);
        assert(sum_of(rest) >= 0) by {
            lemma_sum_nonneg(rest);
        }
        assert(distributable * sum_of(rest) >= 0) by (nonlinear_arith)
            requires
                distributable >= 0,
                sum_of(rest) >= 0,
        ;
        assert(distributable * a >= 0) by (nonlinear_arith)
            requires
                distributable >= 0,
                a >= 0,
        ;
        lemma_floor_sum(distributable * sum_of(rest), distributable * a, winning_total);
        assert(distributable * sum_of(rest) + distributable * a == distributable * sum_of(amounts))
            by (nonlinear_arith)
            requires
                sum_of(amounts) == sum_of(rest) + a,
        ;
    }
}

proof fn lemma_sum_nonneg(amounts: Seq<u64>)
    ensures
        sum_of(amounts) >= 0,
    decreases amounts.len(),
{
    if amounts.len() > 0 {
        lemma_sum_nonneg(amounts.drop_last());
    }
}

/// Pro-rata payouts never exceed the pool: when the winners' stakes add up
/// to the winning aggregate, their shares add up to at most the
/// distributable amount, the remainder staying in the vault as dust.
pub proof fn lemma_payouts_within_pool(distributable: int, amounts: Seq<u64>, winning_total: int)
    requires
        distributable >= 0,
        winning_total > 0,
        sum_of(amounts) == winning_total,
    ensures
        sum_of_shares(distributable, amounts, winning_total) <= distributable,
{
    lemma_shares_within(distributable, amounts, winning_total);
    lemma_div_multiples_vanish(distributable, winning_total);
    assert(distributable * winning_total == winning_total * distributable) by (nonlinear_arith);
}

} // verus!
