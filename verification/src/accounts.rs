//! The accounts that each operation works on, as plain values: what the
//! operation reads of them and what it may change.

use vstd::prelude::*;
use crate::keys::Pubkey;
use crate::state::market::DarkMarket;
use crate::state::pool::EncryptedPoolState;
use crate::state::position::UserPosition;

verus! {

/// What an operation reads of a token account.
#[derive(Clone, Copy, Debug)]
pub struct TokenAccount {
    /// Address of the token account.
    pub key: Pubkey,
    /// Who may move its tokens.
    pub owner: Pubkey,
    /// Mint of the tokens it holds.
    pub mint: Pubkey,
}

/// A movement of tokens that the caller has to carry out.
#[derive(Clone, Copy, Debug, PartialEq, Eq)]
pub struct TokenTransfer {
    /// Token account that gives.
    pub from: Pubkey,
    /// Token account that takes.
    pub to: Pubkey,
    /// Who authorises the movement.
    pub authority: Pubkey,
    /// Tokens moved.
    pub amount: u64,
}

/// Bumps of the addresses that the creation of a market derives.
#[derive(Clone, Copy, Debug)]
pub struct CreateMarketBumps {
    pub market: u8,
    pub vault: u8,
    pub pool_state: u8,
}

/// Accounts of `create_market`. The market and its pool state are written
/// in full, whatever they held.
#[derive(Debug)]
pub struct CreateMarket {
    /// Signer; becomes the market's authority.
    pub authority: Pubkey,
    /// Address of the market.
    pub market_key: Pubkey,
    pub market: DarkMarket,
    /// Address of the pool state.
    pub pool_state_key: Pubkey,
    pub pool_state: EncryptedPoolState,
    /// Mint of the betting token.
    pub token_mint: Pubkey,
    /// Address of the vault.
    pub vault: Pubkey,
    pub bumps: CreateMarketBumps,
}

/// Accounts of `open_market`.
#[derive(Debug)]
pub struct OpenMarket {
    /// Signer.
    pub authority: Pubkey,
    /// Address of the market.
    pub market_key: Pubkey,
    pub market: DarkMarket,
    pub pool_state: EncryptedPoolState,
}

/// Accounts of `place_bet`. The position is written in full, whatever it held.
#[derive(Debug)]
pub struct PlaceBet {
    /// Signer; owner of the new position.
    pub bettor: Pubkey,
    /// Address of the market.
    pub market_key: Pubkey,
    pub market: DarkMarket,
    pub pool_state: EncryptedPoolState,
    /// Address of the position.
    pub user_position_key: Pubkey,
    pub user_position: UserPosition,
    /// Token account that the deposit is taken from.
    pub bettor_token_account: TokenAccount,
    /// Address of the vault that takes the deposit.
    pub vault: Pubkey,
    /// Bump of the position's address.
    pub user_position_bump: u8,
}

/// Accounts of `process_bet_callback`.
#[derive(Debug)]
pub struct ProcessBetCallback {
    /// Address of the market.
    pub market_key: Pubkey,
    pub market: DarkMarket,
    pub pool_state: EncryptedPoolState,
    /// Address of the position.
    pub user_position_key: Pubkey,
    pub user_position: UserPosition,
}

/// Accounts of `close_betting`.
#[derive(Debug)]
pub struct CloseBetting {
    /// Signer.
    pub authority: Pubkey,
    /// Address of the market.
    pub market_key: Pubkey,
    pub market: DarkMarket,
}

/// Accounts of `resolve_market`.
#[derive(Debug)]
pub struct ResolveMarket {
    /// Signer.
    pub authority: Pubkey,
    /// Address of the market.
    pub market_key: Pubkey,
    pub market: DarkMarket,
}

/// Accounts of `compute_payout`.
#[derive(Debug)]
pub struct ComputePayout {
    /// Address of the market.
    pub market_key: Pubkey,
    pub market: DarkMarket,
    pub pool_state: EncryptedPoolState,
    pub user_position: UserPosition,
}

/// Accounts of `compute_payout_callback`.
#[derive(Debug)]
pub struct ComputePayoutCallback {
    /// Address of the market.
    pub market_key: Pubkey,
    pub market: DarkMarket,
    /// Address of the position.
    pub user_position_key: Pubkey,
    pub user_position: UserPosition,
}

/// Accounts of `claim_payout`.
#[derive(Debug)]
pub struct ClaimPayout {
    /// Signer.
    pub claimer: Pubkey,
    /// Address of the market.
    pub market_key: Pubkey,
    pub market: DarkMarket,
    /// Address of the position.
    pub user_position_key: Pubkey,
    pub user_position: UserPosition,
    /// Token account that takes the payout.
    pub claimer_token_account: TokenAccount,
    /// Address of the vault that pays.
    pub vault: Pubkey,
}

/// Accounts of `cancel_market`.
#[derive(Debug)]
pub struct CancelMarket {
    /// Signer.
    pub authority: Pubkey,
    /// Address of the market.
    pub market_key: Pubkey,
    pub market: DarkMarket,
}

/// Accounts of `claim_refund`.
#[derive(Debug)]
pub struct ClaimRefund {
    /// Signer.
    pub claimer: Pubkey,
    /// Address of the market.
    pub market_key: Pubkey,
    pub market: DarkMarket,
    /// Address of the position.
    pub user_position_key: Pubkey,
    pub user_position: UserPosition,
    /// Token account that takes the refund.
    pub claimer_token_account: TokenAccount,
    /// Address of the vault that pays.
    pub vault: Pubkey,
}

} // verus!
