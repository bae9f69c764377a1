use arcium_anchor::prelude::ArgumentRef;
use dark_pool::accounts::{
    ClaimPayout, ClaimRefund, ComputePayout, ComputePayoutCallback, TokenAccount, TokenTransfer,
};
use dark_pool::arguments::payout_arguments;
use dark_pool::errors::DarkPoolError;
use dark_pool::events::{PayoutClaimed, PayoutComputed, RefundClaimed};
use dark_pool::instructions::settlement::{
    claim_payout, claim_refund, compute_payout, compute_payout_callback, PayoutRelease,
    RefundRelease,
};
use dark_pool::keys::Pubkey;
use dark_pool::outputs::{
    payout_from_scalar, ComputationOutputs, ComputePayoutOutput, SharedEncryptedStruct,
};
use dark_pool::state::market::{DarkMarket, MarketStatus};
use dark_pool::state::pool::EncryptedPoolState;
use dark_pool::state::position::{PositionStatus, UserPosition};

const AUTHORITY: u8 = 1;
const MARKET: u8 = 2;
const POOL: u8 = 3;
const MINT: u8 = 4;
const VAULT: u8 = 5;
const BETTOR: u8 = 6;
const BETTOR_TOKENS: u8 = 7;
const POSITION: u8 = 8;
const STRANGER: u8 = 9;

fn key(n: u8) -> Pubkey {
    Pubkey::new([n; 32])
}

fn market(status: MarketStatus) -> DarkMarket {
    let resolved = status == MarketStatus::Resolved || status == MarketStatus::Settled;
    DarkMarket {
        authority: key(AUTHORITY),
        market_id: 7,
        question: "Will it rain?".to_string(),
        token_mint: key(MINT),
        vault: key(VAULT),
        pool_state: key(POOL),
        betting_start_ts: 100,
        betting_end_ts: 200,
        resolution_end_ts: 300,
        status,
        winning_outcome: if resolved { Some(1) } else { None },
        total_positions: 1,
        state_commitment: [0u8; 32],
        bump: 255,
        vault_bump: 254,
        pool_state_bump: 253,
        created_at: 50,
        resolved_at: if resolved { Some(250) } else { None },
    }
}

fn pool() -> EncryptedPoolState {
    EncryptedPoolState {
        market: key(MARKET),
        encrypted_state: vec![7u8; 96],
        state_version: 2,
        last_computation_id: 11,
        pending_computations: 0,
        last_updated: 160,
        bump: 253,
        is_initialized: true,
    }
}

fn position(status: PositionStatus, payout_amount: u64) -> UserPosition {
    UserPosition {
        market: key(MARKET),
        owner: key(BETTOR),
        encrypted_bet: vec![3u8; 64],
        user_pubkey: [0xabu8; 32],
        nonce: 0x0102,
        deposit_amount: 500,
        payout_amount,
        status,
        computation_id: 11,
        bump: 252,
        created_at: 150,
        processed_at: if status == PositionStatus::Pending { None } else { Some(160) },
        claimed_at: None,
    }
}

fn tokens() -> TokenAccount {
    TokenAccount { key: key(BETTOR_TOKENS), owner: key(BETTOR), mint: key(MINT) }
}

fn payout_claim(status: PositionStatus, payout_amount: u64) -> ClaimPayout {
    ClaimPayout {
        claimer: key(BETTOR),
        market_key: key(MARKET),
        market: market(MarketStatus::Resolved),
        user_position_key: key(POSITION),
        user_position: position(status, payout_amount),
        claimer_token_account: tokens(),
        vault: key(VAULT),
    }
}

fn refund_claim(market_status: MarketStatus, status: PositionStatus) -> ClaimRefund {
    ClaimRefund {
        claimer: key(BETTOR),
        market_key: key(MARKET),
        market: market(market_status),
        user_position_key: key(POSITION),
        user_position: position(status, 0),
        claimer_token_account: tokens(),
        vault: key(VAULT),
    }
}

fn payout_accounts(status: PositionStatus) -> ComputePayout {
    ComputePayout {
        market_key: key(MARKET),
        market: market(MarketStatus::Resolved),
        pool_state: pool(),
        user_position: position(status, 0),
    }
}

fn callback_accounts(status: PositionStatus) -> ComputePayoutCallback {
    ComputePayoutCallback {
        market_key: key(MARKET),
        market: market(MarketStatus::Resolved),
        user_position_key: key(POSITION),
        user_position: position(status, 0),
    }
}

fn computed(payout: u64) -> ComputationOutputs<ComputePayoutOutput> {
    let mut scalar = [0xeeu8; 32];
    scalar[..8].copy_from_slice(&payout.to_le_bytes());
    ComputationOutputs::Success(ComputePayoutOutput {
        field_0: SharedEncryptedStruct {
            encryption_key: [0xabu8; 32],
            nonce: 0x0102,
            ciphertexts: [scalar],
        },
    })
}

#[test]
fn compute_payout_packages_the_operands() {
    let ctx = payout_accounts(PositionStatus::Processed);
    let request = match compute_payout(&ctx, 21) {
        Ok(request) => request,
        Err(e) => panic!("refused: {:?}", e),
    };
    assert_eq!(request.computation_offset, 21);
    let list = request.arguments;
    assert_eq!(list.args.len(), 4);
    assert!(matches!(list.args[0], ArgumentRef::X25519Pubkey(0)));
    assert!(matches!(list.args[1], ArgumentRef::PlaintextU128(0)));
    assert!(matches!(list.args[2], ArgumentRef::PlaintextU8(1)));
    assert!(matches!(list.args[3], ArgumentRef::PlaintextU64(0)));
    assert_eq!(list.byte_arrays, vec![[0xabu8; 32]]);
    assert_eq!(list.values_128_bit, vec![0x0102u128]);
    assert_eq!(list.plaintext_numbers, vec![500u64]);
    assert!(list.accounts.is_empty());
}

#[test]
fn payout_arguments_carry_outcome_and_deposit() {
    let list = payout_arguments([4u8; 32], 9, 0, 12345);
    assert!(matches!(list.args[2], ArgumentRef::PlaintextU8(0)));
    assert_eq!(list.plaintext_numbers, vec![12345u64]);
    assert_eq!(list.values_128_bit, vec![9u128]);
    assert_eq!(list.byte_arrays, vec![[4u8; 32]]);
}

#[test]
fn compute_payout_wants_a_resolved_market() {
    for status in [
        MarketStatus::Created,
        MarketStatus::Open,
        MarketStatus::BettingClosed,
        MarketStatus::Settled,
        MarketStatus::Cancelled,
    ] {
        let mut ctx = payout_accounts(PositionStatus::Processed);
        ctx.market.status = status;
        assert_eq!(compute_payout(&ctx, 21).err(), Some(DarkPoolError::MarketNotResolved));
    }
    let mut ctx = payout_accounts(PositionStatus::Processed);
    ctx.market.winning_outcome = None;
    assert_eq!(compute_payout(&ctx, 21).err(), Some(DarkPoolError::MarketNotResolved));
}

#[test]
fn compute_payout_wants_a_processed_position() {
    for status in [
        PositionStatus::Pending,
        PositionStatus::PayoutComputed,
        PositionStatus::Claimed,
        PositionStatus::Refunded,
    ] {
        let ctx = payout_accounts(status);
        assert_eq!(compute_payout(&ctx, 21).err(), Some(DarkPoolError::InvalidMarketStatus));
    }
}

#[test]
fn compute_payout_checks_the_accounts() {
    let mut ctx = payout_accounts(PositionStatus::Processed);
    ctx.pool_state.market = key(STRANGER);
    assert_eq!(compute_payout(&ctx, 21).err(), Some(DarkPoolError::InvalidPoolState));
    let mut ctx = payout_accounts(PositionStatus::Processed);
    ctx.user_position.market = key(STRANGER);
    assert_eq!(compute_payout(&ctx, 21).err(), Some(DarkPoolError::InvalidPosition));
}

#[test]
fn payout_is_read_little_endian() {
    let mut scalar = [0u8; 32];
    scalar[0] = 0xa0;
    scalar[8] = 0xff;
    assert_eq!(payout_from_scalar(&scalar), 160);
    scalar[1] = 1;
    assert_eq!(payout_from_scalar(&scalar), 416);
    assert_eq!(payout_from_scalar(&[0xffu8; 32]), u64::MAX);
}

#[test]
fn payout_callback_writes_the_payout() {
    let mut ctx = callback_accounts(PositionStatus::Processed);
    let r = compute_payout_callback(&mut ctx, computed(160));
    assert_eq!(
        r,
        Ok(Some(PayoutComputed {
            market: key(MARKET),
            position: key(POSITION),
            user: key(BETTOR),
            payout_amount: 160,
        }))
    );
    assert_eq!(ctx.user_position.payout_amount, 160);
    assert_eq!(ctx.user_position.status, PositionStatus::PayoutComputed);
    assert_eq!(ctx.user_position.deposit_amount, 500);
    assert!(ctx.user_position.can_claim_payout());
    assert!(!ctx.user_position.can_claim_refund());
}

#[test]
fn duplicate_payout_callback_is_a_no_op() {
    let mut ctx = callback_accounts(PositionStatus::Processed);
    assert!(matches!(compute_payout_callback(&mut ctx, computed(160)), Ok(Some(_))));
    assert_eq!(compute_payout_callback(&mut ctx, computed(160)), Ok(None));
    assert_eq!(compute_payout_callback(&mut ctx, computed(9999)), Ok(None));
    assert_eq!(ctx.user_position.payout_amount, 160);
    assert_eq!(ctx.user_position.status, PositionStatus::PayoutComputed);
}

#[test]
fn payout_callback_never_reopens_a_position() {
    for status in [PositionStatus::Pending, PositionStatus::Claimed, PositionStatus::Refunded] {
        let mut ctx = callback_accounts(status);
        assert_eq!(compute_payout_callback(&mut ctx, computed(160)), Ok(None));
        assert_eq!(ctx.user_position.status, status);
        assert_eq!(ctx.user_position.payout_amount, 0);
    }
}

#[test]
fn failed_payout_computation_is_rejected_as_a_unit() {
    let mut ctx = callback_accounts(PositionStatus::Processed);
    let r = compute_payout_callback(&mut ctx, ComputationOutputs::Failure);
    assert_eq!(r, Err(DarkPoolError::ComputationAborted));
    assert_eq!(ctx.user_position.status, PositionStatus::Processed);
    assert_eq!(ctx.user_position.payout_amount, 0);
}

#[test]
fn payout_callback_checks_the_accounts() {
    let mut ctx = callback_accounts(PositionStatus::Processed);
    ctx.market.status = MarketStatus::BettingClosed;
    let r = compute_payout_callback(&mut ctx, computed(160));
    assert_eq!(r, Err(DarkPoolError::MarketNotResolved));
    let mut ctx = callback_accounts(PositionStatus::Processed);
    ctx.user_position.market = key(STRANGER);
    let r = compute_payout_callback(&mut ctx, computed(160));
    assert_eq!(r, Err(DarkPoolError::InvalidPosition));
    assert_eq!(ctx.user_position.status, PositionStatus::Processed);
}

#[test]
fn claim_payout_releases_the_payout() {
    let mut ctx = payout_claim(PositionStatus::PayoutComputed, 160);
    let r = claim_payout(&mut ctx, 400);
    assert_eq!(
        r,
        Ok(PayoutRelease {
            release: TokenTransfer {
                from: key(VAULT),
                to: key(BETTOR_TOKENS),
                authority: key(VAULT),
                amount: 160,
            },
            event: PayoutClaimed {
                market: key(MARKET),
                position: key(POSITION),
                user: key(BETTOR),
                amount: 160,
            },
        })
    );
    assert_eq!(ctx.user_position.status, PositionStatus::Claimed);
    assert_eq!(ctx.user_position.claimed_at, Some(400));
    assert_eq!(ctx.user_position.payout_amount, 160);
}

#[test]
fn claim_payout_on_a_settled_market() {
    let mut ctx = payout_claim(PositionStatus::PayoutComputed, 160);
    ctx.market.status = MarketStatus::Settled;
    assert!(claim_payout(&mut ctx, 400).is_ok());
}

#[test]
fn claiming_payout_twice_fails() {
    let mut ctx = payout_claim(PositionStatus::PayoutComputed, 160);
    assert!(claim_payout(&mut ctx, 400).is_ok());
    assert_eq!(claim_payout(&mut ctx, 401), Err(DarkPoolError::PayoutNotComputed));
    assert_eq!(ctx.user_position.status, PositionStatus::Claimed);
    assert_eq!(ctx.user_position.claimed_at, Some(400));
}

#[test]
fn loser_has_no_payout_to_claim() {
    let mut ctx = payout_claim(PositionStatus::PayoutComputed, 0);
    assert!(!ctx.user_position.can_claim_payout());
    assert_eq!(claim_payout(&mut ctx, 400), Err(DarkPoolError::NoPayout));
    assert_eq!(ctx.user_position.status, PositionStatus::PayoutComputed);
    assert_eq!(ctx.user_position.claimed_at, None);
}

#[test]
fn claim_payout_wants_a_computed_payout() {
    for status in [
        PositionStatus::Pending,
        PositionStatus::Processed,
        PositionStatus::Claimed,
        PositionStatus::Refunded,
    ] {
        let mut ctx = payout_claim(status, 160);
        assert_eq!(claim_payout(&mut ctx, 400), Err(DarkPoolError::PayoutNotComputed));
        assert_eq!(ctx.user_position.status, status);
    }
}

#[test]
fn claim_payout_checks_market_and_accounts() {
    for status in [
        MarketStatus::Created,
        MarketStatus::Open,
        MarketStatus::BettingClosed,
        MarketStatus::Cancelled,
    ] {
        let mut ctx = payout_claim(PositionStatus::PayoutComputed, 160);
        ctx.market.status = status;
        assert_eq!(claim_payout(&mut ctx, 400), Err(DarkPoolError::MarketNotResolved));
    }
    let mut ctx = payout_claim(PositionStatus::PayoutComputed, 160);
    ctx.user_position.market = key(STRANGER);
    assert_eq!(claim_payout(&mut ctx, 400), Err(DarkPoolError::InvalidPosition));
    let mut ctx = payout_claim(PositionStatus::PayoutComputed, 160);
    ctx.claimer = key(STRANGER);
    assert_eq!(claim_payout(&mut ctx, 400), Err(DarkPoolError::Unauthorized));
    let mut ctx = payout_claim(PositionStatus::PayoutComputed, 160);
    ctx.claimer_token_account.owner = key(STRANGER);
    assert_eq!(claim_payout(&mut ctx, 400), Err(DarkPoolError::InvalidTokenAccountOwner));
    let mut ctx = payout_claim(PositionStatus::PayoutComputed, 160);
    ctx.claimer_token_account.mint = key(STRANGER);
    assert_eq!(claim_payout(&mut ctx, 400), Err(DarkPoolError::InvalidTokenMint));
    let mut ctx = payout_claim(PositionStatus::PayoutComputed, 160);
    ctx.vault = key(STRANGER);
    assert_eq!(claim_payout(&mut ctx, 400), Err(DarkPoolError::InvalidVault));
    assert_eq!(ctx.user_position.status, PositionStatus::PayoutComputed);
}

#[test]
fn claim_refund_releases_the_deposit() {
    for status in [PositionStatus::Pending, PositionStatus::Processed] {
        let mut ctx = refund_claim(MarketStatus::Cancelled, status);
        let r = claim_refund(&mut ctx, 400);
        assert_eq!(
            r,
            Ok(RefundRelease {
                release: TokenTransfer {
                    from: key(VAULT),
                    to: key(BETTOR_TOKENS),
                    authority: key(VAULT),
                    amount: 500,
                },
                event: RefundClaimed {
                    market: key(MARKET),
                    position: key(POSITION),
                    user: key(BETTOR),
                    amount: 500,
                },
            })
        );
        assert_eq!(ctx.user_position.status, PositionStatus::Refunded);
        assert_eq!(ctx.user_position.claimed_at, Some(400));
        assert_eq!(ctx.user_position.deposit_amount, 500);
    }
}

#[test]
fn refund_on_a_market_not_cancelled_fails() {
    for status in [
        MarketStatus::Created,
        MarketStatus::Open,
        MarketStatus::BettingClosed,
        MarketStatus::Resolved,
        MarketStatus::Settled,
    ] {
        let mut ctx = refund_claim(status, PositionStatus::Processed);
        assert_eq!(claim_refund(&mut ctx, 400), Err(DarkPoolError::MarketNotCancelled));
        assert_eq!(ctx.user_position.status, PositionStatus::Processed);
        assert_eq!(ctx.user_position.claimed_at, None);
    }
}

#[test]
fn claiming_refund_twice_fails() {
    let mut ctx = refund_claim(MarketStatus::Cancelled, PositionStatus::Pending);
    assert!(claim_refund(&mut ctx, 400).is_ok());
    assert_eq!(claim_refund(&mut ctx, 401), Err(DarkPoolError::AlreadyClaimed));
    assert_eq!(ctx.user_position.claimed_at, Some(400));
}

#[test]
fn refund_fails_once_paid_or_refunded() {
    for status in
        [PositionStatus::PayoutComputed, PositionStatus::Claimed, PositionStatus::Refunded]
    {
        let mut ctx = refund_claim(MarketStatus::Cancelled, status);
        assert!(!ctx.user_position.can_claim_refund());
        assert_eq!(claim_refund(&mut ctx, 400), Err(DarkPoolError::AlreadyClaimed));
        assert_eq!(ctx.user_position.status, status);
    }
}

#[test]
fn claim_refund_checks_the_accounts() {
    let mut ctx = refund_claim(MarketStatus::Cancelled, PositionStatus::Pending);
    ctx.user_position.market = key(STRANGER);
    assert_eq!(claim_refund(&mut ctx, 400), Err(DarkPoolError::InvalidPosition));
    let mut ctx = refund_claim(MarketStatus::Cancelled, PositionStatus::Pending);
    ctx.claimer = key(STRANGER);
    assert_eq!(claim_refund(&mut ctx, 400), Err(DarkPoolError::Unauthorized));
    let mut ctx = refund_claim(MarketStatus::Cancelled, PositionStatus::Pending);
    ctx.claimer_token_account.owner = key(STRANGER);
    assert_eq!(claim_refund(&mut ctx, 400), Err(DarkPoolError::InvalidTokenAccountOwner));
    let mut ctx = refund_claim(MarketStatus::Cancelled, PositionStatus::Pending);
    ctx.claimer_token_account.mint = key(STRANGER);
    assert_eq!(claim_refund(&mut ctx, 400), Err(DarkPoolError::InvalidTokenMint));
    let mut ctx = refund_claim(MarketStatus::Cancelled, PositionStatus::Pending);
    ctx.vault = key(STRANGER);
    assert_eq!(claim_refund(&mut ctx, 400), Err(DarkPoolError::InvalidVault));
    assert_eq!(ctx.user_position.status, PositionStatus::Pending);
}

#[test]
fn late_results_cannot_reopen_a_refunded_position() {
    // Refunded while the payout's computation was still in flight.
    let mut refund = refund_claim(MarketStatus::Cancelled, PositionStatus::Processed);
    assert!(claim_refund(&mut refund, 400).is_ok());
    let mut late = ComputePayoutCallback {
        market_key: key(MARKET),
        market: market(MarketStatus::Resolved),
        user_position_key: key(POSITION),
        user_position: refund.user_position,
    };
    assert_eq!(compute_payout_callback(&mut late, computed(160)), Ok(None));
    assert_eq!(late.user_position.status, PositionStatus::Refunded);
    let mut again = ClaimPayout {
        claimer: key(BETTOR),
        market_key: key(MARKET),
        market: market(MarketStatus::Resolved),
        user_position_key: key(POSITION),
        user_position: late.user_position,
        claimer_token_account: tokens(),
        vault: key(VAULT),
    };
    assert_eq!(claim_payout(&mut again, 500), Err(DarkPoolError::PayoutNotComputed));
}
