use friends_bets::{
    cancel_expired, claim, close_betting, creator_fee, initialize_market, payout_amount,
    place_bet, resolve, total_staked, withdraw_creator_fee, Address, BetSide, CancelExpired, Claim,
    CloseBetting, ErrorCode, InitializeMarket, Market, MarketStatus, PlaceBet, Position, Resolve,
    WithdrawCreatorFee,
};

const NOW: i64 = 1_000;
const END: i64 = 2_000;
const DEADLINE: i64 = 3_000;

fn key(b: u8) -> Address {
    Address { bytes: [b; 32] }
}

fn creator() -> Address {
    key(1)
}

fn init_ctx() -> InitializeMarket {
    InitializeMarket {
        creator: creator(),
        market_key: key(2),
        mint: key(3),
        vault: key(4),
        market_bump: 254,
        vault_bump: 253,
    }
}

fn open_market(fee_bps: u16) -> Market {
    let (m, _) = initialize_market(&init_ctx(), fee_bps, END, DEADLINE, "match".to_string(), NOW)
        .unwrap();
    m
}

fn bet(
    market: Market,
    position: Position,
    user: Address,
    side: BetSide,
    amount: u64,
    now: i64,
) -> (Market, Position, Result<u64, ErrorCode>) {
    let mut ctx = PlaceBet { user, market_key: key(2), market, position, position_bump: 7 };
    let r = place_bet(&mut ctx, side, amount, now).map(|e| e.amount);
    (ctx.market, ctx.position, r)
}

fn close(market: Market, now: i64) -> (Market, Result<(), ErrorCode>) {
    let mut ctx = CloseBetting { market_key: key(2), market };
    let r = close_betting(&mut ctx, now).map(|_| ());
    (ctx.market, r)
}

fn settle(market: Market, caller: Address, outcome: BetSide, now: i64) -> (Market, Result<(), ErrorCode>) {
    let mut ctx = Resolve { creator: caller, market_key: key(2), market };
    let r = resolve(&mut ctx, outcome, now).map(|_| ());
    (ctx.market, r)
}

fn cancel(market: Market, now: i64) -> (Market, Result<(), ErrorCode>) {
    let mut ctx = CancelExpired { market_key: key(2), market };
    let r = cancel_expired(&mut ctx, now).map(|_| ());
    (ctx.market, r)
}

fn claim_as(market: Market, position: Position, user: Address) -> (Market, Position, Result<u64, ErrorCode>) {
    let mut ctx = Claim { user, market_key: key(2), market, position };
    let r = claim(&mut ctx).map(|e| e.amount);
    (ctx.market, ctx.position, r)
}

fn withdraw(market: Market, caller: Address) -> (Market, Result<u64, ErrorCode>) {
    let mut ctx = WithdrawCreatorFee { creator: caller, market_key: key(2), market };
    let r = withdraw_creator_fee(&mut ctx).map(|e| e.amount);
    (ctx.market, r)
}

fn fresh(owner: Address) -> Position {
    Position::empty(owner, 0)
}

/// A market with the given stakes from bettors 10 (side A) and 11 (side B),
/// closed, and then resolved to `outcome` by the creator.
fn resolved_market(fee_bps: u16, a: u64, b: u64, outcome: BetSide) -> (Market, Position, Position) {
    let m = open_market(fee_bps);
    let (m, pa, _) = bet(m, fresh(key(10)), key(10), BetSide::A, a, NOW);
    let (m, pb, _) = bet(m, fresh(key(11)), key(11), BetSide::B, b, NOW);
    let (m, r) = close(m, END);
    assert_eq!(r, Ok(()));
    let (m, r) = settle(m, creator(), outcome, END + 1);
    assert_eq!(r, Ok(()));
    (m, pa, pb)
}

#[test]
fn initialize_opens_empty_market() {
    let (m, ev) =
        initialize_market(&init_ctx(), 2000, END, DEADLINE, "final".to_string(), NOW).unwrap();
    assert_eq!(m.status, MarketStatus::Open);
    assert_eq!(m.staked_a, 0);
    assert_eq!(m.staked_b, 0);
    assert_eq!(m.outcome, None);
    assert!(!m.creator_fee_withdrawn);
    assert_eq!(m.creator, creator());
    assert_eq!(m.mint, key(3));
    assert_eq!(m.vault, key(4));
    assert_eq!(m.bump, 254);
    assert_eq!(m.vault_bump, 253);
    assert_eq!(m.title, "final");
    assert_eq!(ev.market, key(2));
    assert_eq!(ev.title, "final");
    assert_eq!(ev.fee_bps, 2000);
}

#[test]
fn initialize_rejects_fee_above_cap() {
    let r = initialize_market(&init_ctx(), 2001, END, DEADLINE, "t".to_string(), NOW);
    assert_eq!(r.err().unwrap(), ErrorCode::FeeTooHigh);
}

#[test]
fn initialize_rejects_long_title() {
    let ok = initialize_market(&init_ctx(), 0, END, DEADLINE, "x".repeat(64), NOW);
    assert!(ok.is_ok());
    let r = initialize_market(&init_ctx(), 0, END, DEADLINE, "x".repeat(65), NOW);
    assert_eq!(r.err().unwrap(), ErrorCode::TitleTooLong);
}

#[test]
fn initialize_counts_title_in_bytes() {
    // each euro sign takes three bytes
    let ok = initialize_market(&init_ctx(), 0, END, DEADLINE, "\u{20ac}".repeat(21), NOW);
    assert!(ok.is_ok());
    let r = initialize_market(&init_ctx(), 0, END, DEADLINE, "\u{20ac}".repeat(22), NOW);
    assert_eq!(r.err().unwrap(), ErrorCode::TitleTooLong);
}

#[test]
fn initialize_rejects_past_end() {
    let r = initialize_market(&init_ctx(), 0, NOW, DEADLINE, "t".to_string(), NOW);
    assert_eq!(r.err().unwrap(), ErrorCode::EndTimeInPast);
}

#[test]
fn initialize_rejects_deadline_not_after_end() {
    let r = initialize_market(&init_ctx(), 0, END, END, "t".to_string(), NOW);
    assert_eq!(r.err().unwrap(), ErrorCode::InvalidDeadline);
}

#[test]
fn initialize_checks_fee_first() {
    let r = initialize_market(&init_ctx(), 5000, NOW - 1, NOW - 2, "x".repeat(80), NOW);
    assert_eq!(r.err().unwrap(), ErrorCode::FeeTooHigh);
}

#[test]
fn bet_adds_to_side_and_position() {
    let m = open_market(100);
    let (m, p, r) = bet(m, fresh(key(10)), key(10), BetSide::A, 250, NOW);
    assert_eq!(r, Ok(250));
    assert_eq!(m.staked_a, 250);
    assert_eq!(m.staked_b, 0);
    assert_eq!(p.amount, 250);
    assert_eq!(p.side, BetSide::A);
    assert_eq!(p.owner, key(10));
    assert_eq!(p.bump, 7);
    let (m, p, r) = bet(m, p, key(10), BetSide::A, 50, END - 1);
    assert_eq!(r, Ok(50));
    assert_eq!(m.staked_a, 300);
    assert_eq!(p.amount, 300);
}

#[test]
fn bet_relabels_position_side() {
    let m = open_market(100);
    let (m, p, _) = bet(m, fresh(key(10)), key(10), BetSide::A, 10, NOW);
    let (m, p, r) = bet(m, p, key(10), BetSide::B, 5, NOW);
    assert_eq!(r, Ok(5));
    assert_eq!(m.staked_a, 10);
    assert_eq!(m.staked_b, 5);
    assert_eq!(p.side, BetSide::B);
    assert_eq!(p.amount, 15);
}

#[test]
fn bet_rejects_zero_amount() {
    let m = open_market(100);
    let (m, p, r) = bet(m, fresh(key(10)), key(10), BetSide::A, 0, NOW);
    assert_eq!(r, Err(ErrorCode::InvalidAmount));
    assert_eq!(m.staked_a, 0);
    assert_eq!(p.amount, 0);
}

#[test]
fn bet_after_end_changes_nothing() {
    let m = open_market(100);
    let (m, p, _) = bet(m, fresh(key(10)), key(10), BetSide::B, 40, NOW);
    let (m, p, r) = bet(m, p, key(10), BetSide::A, 40, END);
    assert_eq!(r, Err(ErrorCode::BettingClosed));
    assert_eq!((m.staked_a, m.staked_b), (0, 40));
    assert_eq!((p.amount, p.side), (40, BetSide::B));
}

#[test]
fn bet_on_closed_market_changes_nothing() {
    let m = open_market(100);
    let (m, p, _) = bet(m, fresh(key(10)), key(10), BetSide::A, 40, NOW);
    let (m, _) = close(m, END);
    let (m, p, r) = bet(m, p, key(10), BetSide::A, 40, NOW);
    assert_eq!(r, Err(ErrorCode::MarketNotOpen));
    assert_eq!(m.staked_a, 40);
    assert_eq!(p.amount, 40);
}

#[test]
fn bet_rejects_aggregate_overflow() {
    let m = open_market(100);
    let (m, _, _) = bet(m, fresh(key(10)), key(10), BetSide::A, u64::MAX, NOW);
    let (m, p, r) = bet(m, fresh(key(11)), key(11), BetSide::A, 1, NOW);
    assert_eq!(r, Err(ErrorCode::Overflow));
    assert_eq!(m.staked_a, u64::MAX);
    assert_eq!(p.amount, 0);
}

#[test]
fn close_only_after_end_and_only_once() {
    let m = open_market(100);
    let (m, r) = close(m, END - 1);
    assert_eq!(r, Err(ErrorCode::BettingNotEnded));
    assert_eq!(m.status, MarketStatus::Open);
    let (m, r) = close(m, END);
    assert_eq!(r, Ok(()));
    assert_eq!(m.status, MarketStatus::PendingResolve);
    let (m, r) = close(m, END + 10);
    assert_eq!(r, Err(ErrorCode::MarketNotOpen));
    assert_eq!(m.status, MarketStatus::PendingResolve);
}

#[test]
fn resolve_requires_creator_and_window() {
    let (m, _) = close(open_market(100), END);
    let (m, r) = settle(m, key(9), BetSide::A, END + 1);
    assert_eq!(r, Err(ErrorCode::UnauthorizedResolver));
    let (m, r) = settle(m, creator(), BetSide::A, DEADLINE);
    assert_eq!(r, Err(ErrorCode::ResolutionDeadlinePassed));
    assert_eq!(m.status, MarketStatus::PendingResolve);
    assert_eq!(m.outcome, None);
    let (m, r) = settle(m, creator(), BetSide::B, DEADLINE - 1);
    assert_eq!(r, Ok(()));
    assert_eq!(m.status, MarketStatus::Resolved);
    assert_eq!(m.outcome, Some(BetSide::B));
    let (_, r) = settle(m, creator(), BetSide::A, DEADLINE - 1);
    assert_eq!(r, Err(ErrorCode::MarketNotPendingResolve));
}

#[test]
fn resolve_rejects_open_market() {
    let (m, r) = settle(open_market(100), creator(), BetSide::A, NOW);
    assert_eq!(r, Err(ErrorCode::MarketNotPendingResolve));
    assert_eq!(m.status, MarketStatus::Open);
}

#[test]
fn cancel_only_after_deadline() {
    let (m, _) = close(open_market(100), END);
    let (m, r) = cancel(m, DEADLINE - 1);
    assert_eq!(r, Err(ErrorCode::ResolutionNotExpired));
    assert_eq!(m.status, MarketStatus::PendingResolve);
    let (m, r) = cancel(m, DEADLINE);
    assert_eq!(r, Ok(()));
    assert_eq!(m.status, MarketStatus::Cancelled);
    assert_eq!(m.outcome, None);
    let (_, r) = cancel(m, DEADLINE + 1);
    assert_eq!(r, Err(ErrorCode::MarketNotPendingResolve));
}

#[test]
fn cancel_rejects_open_market() {
    let (_, r) = cancel(open_market(100), DEADLINE);
    assert_eq!(r, Err(ErrorCode::MarketNotPendingResolve));
}

#[test]
fn cancelled_claim_refunds_either_side() {
    let m = open_market(1000);
    let (m, pa, _) = bet(m, fresh(key(10)), key(10), BetSide::A, 600, NOW);
    let (m, pb, _) = bet(m, fresh(key(11)), key(11), BetSide::B, 400, NOW);
    let (m, _) = close(m, END);
    let (m, _) = cancel(m, DEADLINE);
    let (m, pa, r) = claim_as(m, pa, key(10));
    assert_eq!(r, Ok(600));
    assert!(pa.claimed);
    let (m, _, r) = claim_as(m, pb, key(11));
    assert_eq!(r, Ok(400));
    let (_, r) = withdraw(m, creator());
    assert_eq!(r, Err(ErrorCode::MarketNotResolved));
}

#[test]
fn double_claim_is_rejected() {
    let (m, pa, _) = resolved_market(1000, 600, 400, BetSide::A);
    let (m, pa, r) = claim_as(m, pa, key(10));
    assert_eq!(r, Ok(900));
    let (_, pa, r) = claim_as(m, pa, key(10));
    assert_eq!(r, Err(ErrorCode::AlreadyClaimed));
    assert!(pa.claimed);
}

#[test]
fn claim_by_other_user_is_rejected() {
    let (m, pa, _) = resolved_market(1000, 600, 400, BetSide::A);
    let (_, pa, r) = claim_as(m, pa, key(11));
    assert_eq!(r, Err(ErrorCode::UnauthorizedClaim));
    assert!(!pa.claimed);
}

#[test]
fn claim_before_final_is_rejected() {
    let m = open_market(1000);
    let (m, pa, _) = bet(m, fresh(key(10)), key(10), BetSide::A, 600, NOW);
    let (m, _) = close(m, END);
    let (_, pa, r) = claim_as(m, pa, key(10));
    assert_eq!(r, Err(ErrorCode::MarketNotFinalized));
    assert!(!pa.claimed);
}

#[test]
fn worked_example_outcome_a() {
    let (m, pa, pb) = resolved_market(1000, 600, 400, BetSide::A);
    let vault: u64 = 1000;
    let (m, fee) = withdraw(m, creator());
    assert_eq!(fee, Ok(100));
    assert!(m.creator_fee_withdrawn);
    let (m, _, win) = claim_as(m, pa, key(10));
    assert_eq!(win, Ok(900));
    let (_, pb, lose) = claim_as(m, pb, key(11));
    assert_eq!(lose, Ok(0));
    assert!(pb.claimed);
    assert_eq!(vault - 100 - 900, 0);
}

#[test]
fn worked_example_outcome_b() {
    let m = open_market(1000);
    let (m, pa, _) = bet(m, fresh(key(10)), key(10), BetSide::A, 600, NOW);
    let (m, pb1, _) = bet(m, fresh(key(11)), key(11), BetSide::B, 150, NOW);
    let (m, pb2, _) = bet(m, fresh(key(12)), key(12), BetSide::B, 250, NOW);
    let (m, _) = close(m, END);
    let (m, _) = settle(m, creator(), BetSide::B, END);
    let (m, _, a) = claim_as(m, pa, key(10));
    assert_eq!(a, Ok(0));
    let (m, _, b1) = claim_as(m, pb1, key(11));
    assert_eq!(b1, Ok(900 * 150 / 400));
    assert_eq!(b1, Ok(337));
    let (m, _, b2) = claim_as(m, pb2, key(12));
    assert_eq!(b2, Ok(562));
    assert!(337 + 562 <= 900);
    let (_, fee) = withdraw(m, creator());
    assert_eq!(fee, Ok(100));
}

#[test]
fn fee_same_before_and_after_claims() {
    let (m1, pa1, pb1) = resolved_market(1500, 700, 300, BetSide::B);
    let (m1, fee_first) = withdraw(m1, creator());
    let (m1, _, a1) = claim_as(m1, pa1, key(10));
    let (_, _, b1) = claim_as(m1, pb1, key(11));

    let (m2, pa2, pb2) = resolved_market(1500, 700, 300, BetSide::B);
    let (m2, _, a2) = claim_as(m2, pa2, key(10));
    let (m2, _, b2) = claim_as(m2, pb2, key(11));
    let (_, fee_last) = withdraw(m2, creator());

    assert_eq!(fee_first, Ok(150));
    assert_eq!(fee_first, fee_last);
    assert_eq!((a1, b1), (a2, b2));
    assert_eq!(b1, Ok(850));
    let residual = 1000 - fee_first.unwrap() - a1.unwrap() - b1.unwrap();
    assert_eq!(residual, 0);
}

#[test]
fn fee_withdrawn_once_by_creator_only() {
    let (m, _, _) = resolved_market(1000, 600, 400, BetSide::A);
    let (m, r) = withdraw(m, key(10));
    assert_eq!(r, Err(ErrorCode::UnauthorizedWithdrawal));
    assert!(!m.creator_fee_withdrawn);
    let (m, r) = withdraw(m, creator());
    assert_eq!(r, Ok(100));
    let (_, r) = withdraw(m, creator());
    assert_eq!(r, Err(ErrorCode::FeeAlreadyWithdrawn));
}

#[test]
fn fee_withdrawal_needs_resolution() {
    let (m, _) = close(open_market(1000), END);
    let (_, r) = withdraw(m, creator());
    assert_eq!(r, Err(ErrorCode::MarketNotResolved));
}

#[test]
fn empty_winning_side_pays_nothing() {
    let m = open_market(1000);
    let (m, pa, _) = bet(m, fresh(key(10)), key(10), BetSide::A, 500, NOW);
    let (m, _) = close(m, END);
    let (m, _) = settle(m, creator(), BetSide::B, END);
    let (m, _, r) = claim_as(m, pa, key(10));
    assert_eq!(r, Ok(0));
    let (_, fee) = withdraw(m, creator());
    assert_eq!(fee, Ok(50));
}

#[test]
fn zero_fee_pays_whole_pool() {
    let (m, pa, _) = resolved_market(0, 3, 7, BetSide::A);
    let (_, _, r) = claim_as(m, pa, key(10));
    assert_eq!(r, Ok(10));
}

#[test]
fn creator_fee_rounds_down() {
    assert_eq!(creator_fee(600, 400, 1000), Ok(100));
    assert_eq!(creator_fee(9, 0, 2000), Ok(1));
    assert_eq!(creator_fee(4, 0, 2000), Ok(0));
    assert_eq!(creator_fee(u64::MAX, 0, 2000), Ok(3689348814741910323));
    assert_eq!(creator_fee(u64::MAX, 1, 0), Err(ErrorCode::Overflow));
}

#[test]
fn total_staked_checks_overflow() {
    assert_eq!(total_staked(600, 400), Ok(1000));
    assert_eq!(total_staked(u64::MAX, 0), Ok(u64::MAX));
    assert_eq!(total_staked(u64::MAX, 1), Err(ErrorCode::Overflow));
}

fn record(status: MarketStatus, outcome: Option<BetSide>, a: u64, b: u64, fee_bps: u16) -> Market {
    let mut m = open_market(0);
    m.status = status;
    m.outcome = outcome;
    m.staked_a = a;
    m.staked_b = b;
    m.fee_bps = fee_bps;
    m
}

fn stake(side: BetSide, amount: u64) -> Position {
    Position { owner: key(10), side, amount, claimed: false, bump: 0 }
}

#[test]
fn payout_uses_wide_intermediate() {
    let m = record(MarketStatus::Resolved, Some(BetSide::A), u64::MAX / 2, u64::MAX / 2, 0);
    let p = stake(BetSide::A, u64::MAX / 2);
    assert_eq!(payout_amount(&m, &p), Ok(u64::MAX - 1));
}

#[test]
fn payout_reports_pool_overflow() {
    let m = record(MarketStatus::Resolved, Some(BetSide::A), u64::MAX, 1, 0);
    assert_eq!(payout_amount(&m, &stake(BetSide::A, 1)), Err(ErrorCode::Overflow));
    assert_eq!(payout_amount(&m, &stake(BetSide::B, 1)), Ok(0));
}

#[test]
fn payout_reports_share_overflow() {
    let m = record(MarketStatus::Resolved, Some(BetSide::B), u64::MAX - 1, 1, 0);
    assert_eq!(payout_amount(&m, &stake(BetSide::B, 2)), Err(ErrorCode::Overflow));
}

#[test]
fn payout_reports_fee_above_pool() {
    let m = record(MarketStatus::Resolved, Some(BetSide::A), 100, 0, 20000);
    assert_eq!(payout_amount(&m, &stake(BetSide::A, 100)), Err(ErrorCode::Underflow));
}

#[test]
fn addresses_compare_by_bytes() {
    let mut a = key(5);
    assert_eq!(a, key(5));
    a.bytes[31] = 6;
    assert_ne!(a, key(5));
}
