use vstd::prelude::*;
use crate::keys::Pubkey;

verus! {

/// Where a position stands in its life.
#[derive(Clone, Copy, Debug, PartialEq, Eq, Structural)]
pub enum PositionStatus {
    /// Submitted; the cluster has not aggregated the bet yet.
    Pending,
    /// The bet is part of the pool.
    Processed,
    /// The payout is known.
    PayoutComputed,
    /// The payout has been paid.
    Claimed,
    /// The deposit has been refunded after a cancellation.
    Refunded,
}

impl Default for PositionStatus {
    fn default() -> (status: PositionStatus)
        ensures
            status == PositionStatus::Pending,
    {
        PositionStatus::Pending
    }
}

/// One bettor's bet on one market.
#[derive(Debug)]
pub struct UserPosition {
    /// The market the bet is on.
    pub market: Pubkey,
    /// The bettor.
    pub owner: Pubkey,
    /// The encrypted bet: outcome ciphertext, then amount ciphertext.
    pub encrypted_bet: Vec<u8>,
    /// The bettor's x25519 public key, from which the shared secret derives.
    pub user_pubkey: [u8; 32],
    /// Nonce of the encryption, used for both of the position's requests.
    pub nonce: u128,
    /// Tokens put in escrow. The amount is public, the side is not.
    pub deposit_amount: u64,
    /// Tokens owed after settlement; 0 until computed.
    pub payout_amount: u64,
    /// Current status.
    pub status: PositionStatus,
    /// The request that last concerned this position.
    pub computation_id: u64,
    /// Bump of the position's address.
    pub bump: u8,
    /// Moment of creation.
    pub created_at: i64,
    /// Moment at which the bet entered the pool.
    pub processed_at: Option<i64>,
    /// Moment of the payout or the refund.
    pub claimed_at: Option<i64>,
}

/// A position as a mathematical value.
pub struct PositionView {
    pub market: Pubkey,
    pub owner: Pubkey,
    pub encrypted_bet: Seq<u8>,
    pub user_pubkey: Seq<u8>,
    pub nonce: u128,
    pub deposit_amount: u64,
    pub payout_amount: u64,
    pub status: PositionStatus,
    pub computation_id: u64,
    pub bump: u8,
    pub created_at: i64,
    pub processed_at: Option<i64>,
    pub claimed_at: Option<i64>,
}

impl View for UserPosition {
    type V = PositionView;

    open spec fn view(&self) -> PositionView {
        PositionView {
            market: self.market,
            owner: self.owner,
            encrypted_bet: self.encrypted_bet@,
            user_pubkey: self.user_pubkey@,
            nonce: self.nonce,
            deposit_amount: self.deposit_amount,
            payout_amount: self.payout_amount,
            status: self.status,
            computation_id: self.computation_id,
            bump: self.bump,
            created_at: self.created_at,
            processed_at: self.processed_at,
            claimed_at: self.claimed_at,
        }
    }
}

impl PositionView {
    /// A payout can be claimed: it is computed and not zero.
    pub open spec fn can_claim_payout(self) -> bool {
        self.status == PositionStatus::PayoutComputed && self.payout_amount > 0
    }

    /// The deposit can be refunded: it is in escrow and no payout was computed.
    pub open spec fn can_claim_refund(self) -> bool {
        self.status == PositionStatus::Processed || self.status == PositionStatus::Pending
    }

    /// Nothing more is ever paid on the position.
    pub open spec fn is_terminal(self) -> bool {
        self.status == PositionStatus::Claimed || self.status == PositionStatus::Refunded
    }

    /// What every position made and changed by this library satisfies: the
    /// moment of processing is on record exactly from `Processed` on, no
    /// payout is on record before one was computed, and the moment of the
    /// claim is on record exactly once the position is paid or refunded.
    pub open spec fn wf(self) -> bool {
        &&& self.status == PositionStatus::Pending ==> self.processed_at is None
        &&& (self.status == PositionStatus::Processed || self.status
            == PositionStatus::PayoutComputed || self.status == PositionStatus::Claimed)
            ==> self.processed_at is Some
        &&& (self.status == PositionStatus::Pending || self.status == PositionStatus::Processed
            || self.status == PositionStatus::Refunded) ==> self.payout_amount == 0
        &&& self.is_terminal() <==> self.claimed_at is Some
    }

    /// The position once its bet has entered the pool.
    pub open spec fn processed(self, now: i64) -> PositionView {
        PositionView { status: PositionStatus::Processed, processed_at: Some(now), ..self }
    }

    /// The position once its payout is known.
    pub open spec fn with_payout(self, payout_amount: u64) -> PositionView {
        PositionView { payout_amount, status: PositionStatus::PayoutComputed, ..self }
    }

    /// The position once its payout has been paid.
    pub open spec fn claimed(self, now: i64) -> PositionView {
        PositionView { status: PositionStatus::Claimed, claimed_at: Some(now), ..self }
    }

    /// The position once its deposit has been refunded.
    pub open spec fn refunded(self, now: i64) -> PositionView {
        PositionView { status: PositionStatus::Refunded, claimed_at: Some(now), ..self }
    }
}

impl UserPosition {
    /// Whether a payout can be claimed.
    pub fn can_claim_payout(&self) -> (claimable: bool)
        ensures
            claimable == self@.can_claim_payout(),
    {
        self.status == PositionStatus::PayoutComputed && self.payout_amount > 0
    }

    /// Whether the deposit can be refunded.
    pub fn can_claim_refund(&self) -> (refundable: bool)
        ensures
            refundable == self@.can_claim_refund(),
    {
        self.status == PositionStatus::Processed || self.status == PositionStatus::Pending
    }
}

} // verus!
