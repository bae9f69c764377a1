use vstd::prelude::*;
use crate::keys::Pubkey;

verus! {

/// Where a market stands in its life.
#[derive(Clone, Copy, Debug, PartialEq, Eq, Structural)]
pub enum MarketStatus {
    /// Created; its pool is not yet activated.
    Created,
    /// Open for betting.
    Open,
    /// The betting period is over; the outcome is awaited.
    BettingClosed,
    /// The winning outcome is known.
    Resolved,
    /// Every payout has been computed.
    Settled,
    /// Cancelled; deposits can be refunded.
    Cancelled,
}

impl Default for MarketStatus {
    fn default() -> (status: MarketStatus)
        ensures
            status == MarketStatus::Created,
    {
        MarketStatus::Created
    }
}

/// One prediction market: a question with two outcomes.
#[derive(Debug)]
pub struct DarkMarket {
    /// Who may open, close, resolve and cancel the market.
    pub authority: Pubkey,
    /// Unique identifier of the market.
    pub market_id: u64,
    /// The question, visible to all.
    pub question: String,
    /// Mint of the token that bets are placed in.
    pub token_mint: Pubkey,
    /// Vault that holds every deposit.
    pub vault: Pubkey,
    /// The market's pool state.
    pub pool_state: Pubkey,
    /// First moment at which bets are taken.
    pub betting_start_ts: i64,
    /// First moment at which bets are no longer taken.
    pub betting_end_ts: i64,
    /// Deadline for the resolution.
    pub resolution_end_ts: i64,
    /// Current status.
    pub status: MarketStatus,
    /// The winning outcome (0 = NO, 1 = YES), once resolved.
    pub winning_outcome: Option<u8>,
    /// Number of positions taken. The count is public, the sides are not.
    pub total_positions: u32,
    /// Fingerprint of the latest encrypted pool.
    pub state_commitment: [u8; 32],
    /// Bump of the market's address.
    pub bump: u8,
    /// Bump of the vault's address.
    pub vault_bump: u8,
    /// Bump of the pool state's address.
    pub pool_state_bump: u8,
    /// Moment of creation.
    pub created_at: i64,
    /// Moment of resolution.
    pub resolved_at: Option<i64>,
}

/// A market as a mathematical value.
pub struct MarketView {
    pub authority: Pubkey,
    pub market_id: u64,
    pub question: Seq<char>,
    pub token_mint: Pubkey,
    pub vault: Pubkey,
    pub pool_state: Pubkey,
    pub betting_start_ts: i64,
    pub betting_end_ts: i64,
    pub resolution_end_ts: i64,
    pub status: MarketStatus,
    pub winning_outcome: Option<u8>,
    pub total_positions: u32,
    pub state_commitment: Seq<u8>,
    pub bump: u8,
    pub vault_bump: u8,
    pub pool_state_bump: u8,
    pub created_at: i64,
    pub resolved_at: Option<i64>,
}

impl View for DarkMarket {
    type V = MarketView;

    open spec fn view(&self) -> MarketView {
        MarketView {
            authority: self.authority,
            market_id: self.market_id,
            question: self.question@,
            token_mint: self.token_mint,
            vault: self.vault,
            pool_state: self.pool_state,
            betting_start_ts: self.betting_start_ts,
            betting_end_ts: self.betting_end_ts,
            resolution_end_ts: self.resolution_end_ts,
            status: self.status,
            winning_outcome: self.winning_outcome,
            total_positions: self.total_positions,
            state_commitment: self.state_commitment@,
            bump: self.bump,
            vault_bump: self.vault_bump,
            pool_state_bump: self.pool_state_bump,
            created_at: self.created_at,
            resolved_at: self.resolved_at,
        }
    }
}

impl MarketView {
    /// The deadlines are in order: betting starts before it ends, and ends
    /// before the resolution deadline.
    pub open spec fn deadlines_ordered(self) -> bool {
        self.betting_start_ts < self.betting_end_ts < self.resolution_end_ts
    }

    /// The winning outcome is known exactly from resolution on, and is 0 or 1.
    pub open spec fn outcome_consistent(self) -> bool {
        &&& (self.status == MarketStatus::Resolved || self.status == MarketStatus::Settled)
            <==> self.winning_outcome is Some
        &&& self.winning_outcome matches Some(outcome) ==> outcome <= 1
        &&& self.winning_outcome is Some <==> self.resolved_at is Some
    }

    /// What every market made and changed by this library satisfies.
    pub open spec fn wf(self) -> bool {
        self.deadlines_ordered() && self.outcome_consistent()
    }
}

} // verus!
