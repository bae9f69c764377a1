//! What each successful operation reports.

use vstd::prelude::*;
use crate::keys::Pubkey;

verus! {

/// A market was created.
#[derive(Clone, Copy, Debug, PartialEq, Eq)]
pub struct MarketCreated {
    pub market: Pubkey,
    pub market_id: u64,
    pub authority: Pubkey,
    pub token_mint: Pubkey,
    pub betting_end_ts: i64,
    pub resolution_end_ts: i64,
}

/// A market was opened for betting.
#[derive(Clone, Copy, Debug, PartialEq, Eq)]
pub struct MarketOpened {
    pub market: Pubkey,
    pub opened_at: i64,
}

/// A bet was placed and its deposit put in escrow.
#[derive(Clone, Copy, Debug, PartialEq, Eq)]
pub struct BetPlaced {
    pub market: Pubkey,
    pub position: Pubkey,
    pub bettor: Pubkey,
    pub deposit_amount: u64,
    pub computation_id: u64,
}

/// A bet entered the pool.
#[derive(Clone, Copy, Debug, PartialEq, Eq)]
pub struct BetProcessed {
    pub market: Pubkey,
    pub position: Pubkey,
    pub state_version: u64,
    pub new_commitment: [u8; 32],
}

/// The betting period of a market was closed.
#[derive(Clone, Copy, Debug, PartialEq, Eq)]
pub struct BettingClosed {
    pub market: Pubkey,
    pub total_positions: u32,
    pub closed_at: i64,
}

/// A market was resolved.
#[derive(Clone, Copy, Debug, PartialEq, Eq)]
pub struct MarketResolved {
    pub market: Pubkey,
    pub winning_outcome: u8,
    pub resolved_at: i64,
}

/// The payout of a position was computed.
#[derive(Clone, Copy, Debug, PartialEq, Eq)]
pub struct PayoutComputed {
    pub market: Pubkey,
    pub position: Pubkey,
    pub user: Pubkey,
    pub payout_amount: u64,
}

/// The payout of a position was paid.
#[derive(Clone, Copy, Debug, PartialEq, Eq)]
pub struct PayoutClaimed {
    pub market: Pubkey,
    pub position: Pubkey,
    pub user: Pubkey,
    pub amount: u64,
}

/// A market was cancelled.
#[derive(Clone, Copy, Debug, PartialEq, Eq)]
pub struct MarketCancelled {
    pub market: Pubkey,
    pub cancelled_at: i64,
}

/// The deposit of a position was refunded.
#[derive(Clone, Copy, Debug, PartialEq, Eq)]
pub struct RefundClaimed {
    pub market: Pubkey,
    pub position: Pubkey,
    pub user: Pubkey,
    pub amount: u64,
}

/// The encrypted pool of a market was replaced by a new snapshot.
#[derive(Clone, Copy, Debug, PartialEq, Eq)]
pub struct PoolStateUpdated {
    pub market: Pubkey,
    pub state_version: u64,
    pub commitment: [u8; 32],
    pub updated_at: i64,
}

} // verus!
