//! Escrow for two-outcome prediction markets: the market lifecycle, bet
//! accounting and settlement arithmetic, each operation stated as a
//! transition on plain account records.
pub mod state;
pub mod payout;
pub mod lifecycle;
pub mod instructions;
pub mod laws;

pub use state::{
    Address, BetSide, ErrorCode, Market, MarketStatus, Position, BPS_DENOMINATOR, MAX_FEE_BPS,
    MAX_TITLE_LEN,
};
pub use payout::{creator_fee, payout_amount, total_staked};
pub use instructions::{
    cancel_expired, claim, close_betting, initialize_market, place_bet, resolve,
    withdraw_creator_fee, BetPlaced, BettingClosed, CancelExpired, Cancelled, Claim, Claimed,
    CloseBetting, CreatorFeeWithdrawn, InitializeMarket, MarketInitialized, PlaceBet, Resolve,
    Resolved, WithdrawCreatorFee,
};
