use vstd::prelude::*;
use vstd::utf8::encode_utf8;

verus! {

/// Largest platform fee a market may charge, in basis points.
pub const MAX_FEE_BPS: u16 = 2000;

/// Largest title a market may carry, in UTF-8 bytes.
pub const MAX_TITLE_LEN: usize = 64;

/// Basis points in a whole.
pub const BPS_DENOMINATOR: u128 = 10000;

/// A 32-byte account identity (a creator, a token type, a vault, a bettor).
#[derive(Clone, Copy, Debug, Eq)]
pub struct Address {
    pub bytes: [u8; 32],
}

impl PartialEq for Address {
    fn eq(&self, other: &Address) -> (r: bool) {
        let mut i: usize = 0;
        while i < 32
            invariant
                0 <= i <= 32,
                forall|k: int| 0 <= k < i ==> self.bytes[k] == other.bytes[k],
            decreases 32 - i,
        {
            if self.bytes[i] != other.bytes[i] {
                return false;
            }
            i = i + 1;
        }
        proof {
            broadcast use vstd::array::axiom_array_ext_equal;
            assert(self.bytes =~= other.bytes);
        }
        true
    }
}

impl vstd::std_specs::cmp::PartialEqSpecImpl for Address {
    open spec fn obeys_eq_spec() -> bool {
        true
    }

    open spec fn eq_spec(&self, other: &Address) -> bool {
        self == other
    }
}

/// One of the two outcomes a market can settle on.
#[derive(Clone, Copy, Debug, PartialEq, Eq, Structural)]
pub enum BetSide {
    A,
    B,
}

/// Where a market stands in its lifecycle.
#[derive(Clone, Copy, Debug, PartialEq, Eq, Structural)]
pub enum MarketStatus {
    Open,
    PendingResolve,
    Resolved,
    Cancelled,
}

/// Why an operation was rejected. A rejected operation changes nothing.
#[derive(Clone, Copy, Debug, PartialEq, Eq, Structural)]
pub enum ErrorCode {
    FeeTooHigh,
    TitleTooLong,
    EndTimeInPast,
    InvalidDeadline,
    MarketNotOpen,
    BettingClosed,
    InvalidAmount,
    Overflow,
    Underflow,
    BettingNotEnded,
    MarketNotPendingResolve,
    UnauthorizedResolver,
    ResolutionDeadlinePassed,
    ResolutionNotExpired,
    MarketNotFinalized,
    AlreadyClaimed,
    UnauthorizedClaim,
    MarketNotResolved,
    UnauthorizedWithdrawal,
    FeeAlreadyWithdrawn,
}

/// The persistent record of one market.
pub struct Market {
    pub creator: Address,
    pub mint: Address,
    pub vault: Address,
    pub fee_bps: u16,
    pub end_ts: i64,
    pub resolve_deadline_ts: i64,
    pub staked_a: u64,
    pub staked_b: u64,
    pub status: MarketStatus,
    pub outcome: Option<BetSide>,
    pub creator_fee_withdrawn: bool,
    pub bump: u8,
    pub vault_bump: u8,
    pub title: String,
}

/// One bettor's cumulative stake in one market.
#[derive(Clone, Copy, Debug)]
pub struct Position {
    pub owner: Address,
    pub side: BetSide,
    pub amount: u64,
    pub claimed: bool,
    pub bump: u8,
}

/// Length of a title in UTF-8 bytes.
pub open spec fn title_len(title: Seq<char>) -> nat {
    encode_utf8(title).len()
}

impl Market {
    /// The record invariant: a capped fee, a deadline after the end of
    /// betting, a capped title, and an outcome exactly when resolved.
    pub open spec fn wf(&self) -> bool {
        &&& self.fee_bps <= MAX_FEE_BPS
        &&& self.resolve_deadline_ts > self.end_ts
        &&& title_len(self.title@) <= MAX_TITLE_LEN
        &&& (self.outcome is Some <==> self.status == MarketStatus::Resolved)
    }

    /// Total stake on one side.
    pub open spec fn stake_on(&self, side: BetSide) -> u64 {
        match side {
            BetSide::A => self.staked_a,
            BetSide::B => self.staked_b,
        }
    }

    /// The stake on one side, as kept in the record.
    pub fn side_total(&self, side: BetSide) -> (r: u64)
        ensures
            r == self.stake_on(side),
    {
        match side {
            BetSide::A => self.staked_a,
            BetSide::B => self.staked_b,
        }
    }
}

impl Position {
    /// A position that has never received a stake.
    pub fn empty(owner: Address, bump: u8) -> (r: Position)
        ensures
            r.owner == owner,
            r.side == BetSide::A,
            r.amount == 0,
            !r.claimed,
            r.bump == bump,
    {
        Position { owner, side: BetSide::A, amount: 0, claimed: false, bump }
    }
}

} // verus!
