//! Placing a bet, and taking the bet into the pool once the compute cluster
//! has aggregated it.

use vstd::prelude::*;
use arcium_anchor::prelude::ArgumentList;
use crate::accounts::{PlaceBet, ProcessBetCallback, TokenTransfer};
use crate::arguments::{bet_arguments, bet_operands, list_operands};
use crate::constants::ENCRYPTED_BET_SIZE;
use crate::errors::DarkPoolError;
use crate::events::{BetPlaced, BetProcessed};
use crate::outputs::{
    commitment_from_nonce,
    commitment_of,
    flatten_ciphertexts,
    flattened,
    ComputationOutputs,
    ProcessBetOutput,
};
use crate::state::market::{MarketStatus, MarketView};
use crate::state::position::{PositionStatus, PositionView, UserPosition};

verus! {

/// A computation that the caller has to submit to the compute cluster.
pub struct ComputationRequest {
    /// Identifier of the request, chosen by the caller.
    pub computation_offset: u64,
    /// The operands.
    pub arguments: ArgumentList,
}

/// What a successful `place_bet` asks of the caller and reports.
pub struct BetPlacement {
    /// The deposit to move into the vault.
    pub escrow: TokenTransfer,
    /// The aggregation to submit.
    pub request: ComputationRequest,
    /// The report.
    pub event: BetPlaced,
}

/// Why a bet cannot be placed, if it cannot.
pub open spec fn place_bet_refusal(
    ctx: PlaceBet,
    encrypted_bet: Seq<u8>,
    deposit_amount: u64,
    now: i64,
) -> Option<DarkPoolError> {
    if ctx.pool_state.market != ctx.market_key {
        Some(DarkPoolError::InvalidPoolState)
    } else if !ctx.pool_state.is_initialized {
        Some(DarkPoolError::PoolStateNotInitialized)
    } else if ctx.bettor_token_account.owner != ctx.bettor {
        Some(DarkPoolError::InvalidTokenAccountOwner)
    } else if ctx.bettor_token_account.mint != ctx.market.token_mint {
        Some(DarkPoolError::InvalidTokenMint)
    } else if ctx.vault != ctx.market.vault {
        Some(DarkPoolError::InvalidVault)
    } else if ctx.market.status != MarketStatus::Open {
        Some(DarkPoolError::MarketNotOpen)
    } else if !(now >= ctx.market.betting_start_ts) {
        Some(DarkPoolError::BettingNotStarted)
    } else if !(now < ctx.market.betting_end_ts) {
        Some(DarkPoolError::BettingEnded)
    } else if !(deposit_amount > 0) {
        Some(DarkPoolError::InvalidBetAmount)
    } else if encrypted_bet.len() != ENCRYPTED_BET_SIZE {
        Some(DarkPoolError::InvalidEncryptedBetSize)
    } else if ctx.market.total_positions == u32::MAX {
        Some(DarkPoolError::Overflow)
    } else if ctx.pool_state.pending_computations == u32::MAX {
        Some(DarkPoolError::Overflow)
    } else {
        None
    }
}

/// The position that `place_bet` writes.
pub open spec fn placed_position(
    ctx: PlaceBet,
    computation_offset: u64,
    encrypted_bet: Seq<u8>,
    user_pubkey: Seq<u8>,
    nonce: u128,
    deposit_amount: u64,
    now: i64,
) -> PositionView {
    PositionView {
        market: ctx.market_key,
        owner: ctx.bettor,
        encrypted_bet,
        user_pubkey,
        nonce,
        deposit_amount,
        payout_amount: 0,
        status: PositionStatus::Pending,
        computation_id: computation_offset,
        bump: ctx.user_position_bump,
        created_at: now,
        processed_at: None,
        claimed_at: None,
    }
}

/// Places a bet: records the position, counts it, reserves one request in
/// flight on the pool, and hands back the deposit to put in escrow and the
/// aggregation to submit.
///
/// Refused, in this order, when the pool state belongs to another market
/// (`InvalidPoolState`) or is not activated (`PoolStateNotInitialized`),
/// when the token account is not the bettor's (`InvalidTokenAccountOwner`)
/// or of another mint (`InvalidTokenMint`), when the vault is not the
/// market's (`InvalidVault`), when the market is not `Open`
/// (`MarketNotOpen`), when `now` lies before the start of betting
/// (`BettingNotStarted`) or not before its end (`BettingEnded`), when the
/// deposit is zero (`InvalidBetAmount`), when the encrypted bet is not 64
/// bytes long (`InvalidEncryptedBetSize`), and when either counter is at its
/// maximum (`Overflow`).
pub fn place_bet(
    ctx: &mut PlaceBet,
    computation_offset: u64,
    encrypted_bet: Vec<u8>,
    user_pubkey: [u8; 32],
    nonce: u128,
    deposit_amount: u64,
    now: i64,
) -> (result: Result<BetPlacement, DarkPoolError>)
    ensures
        match place_bet_refusal(*old(ctx), encrypted_bet@, deposit_amount, now) {
            Some(e) => result == Err::<BetPlacement, DarkPoolError>(e) && *final(ctx) == *old(
                ctx,
            ),
            None => {
                &&& final(ctx).user_position@ == placed_position(
                    *old(ctx),
                    computation_offset,
                    encrypted_bet@,
                    user_pubkey@,
                    nonce,
                    deposit_amount,
                    now,
                )
                &&& final(ctx).market@ == (MarketView {
                    total_positions: (old(ctx).market.total_positions + 1) as u32,
                    ..old(ctx).market@
                })
                &&& final(ctx).pool_state@ == old(ctx).pool_state@.with_request()
                &&& *final(ctx) == (PlaceBet {
                    market: final(ctx).market,
                    pool_state: final(ctx).pool_state,
                    user_position: final(ctx).user_position,
                    ..*old(ctx)
                })
                &&& result matches Ok(placed)
                &&& placed.escrow == (TokenTransfer {
                    from: old(ctx).bettor_token_account.key,
                    to: old(ctx).vault,
                    authority: old(ctx).bettor,
                    amount: deposit_amount,
                })
                &&& placed.request.computation_offset == computation_offset
                &&& list_operands(placed.request.arguments) == bet_operands(
                    user_pubkey@,
                    nonce,
                    encrypted_bet@,
                )
                &&& placed.event == (BetPlaced {
                    market: old(ctx).market_key,
                    position: old(ctx).user_position_key,
                    bettor: old(ctx).bettor,
                    deposit_amount,
                    computation_id: computation_offset,
                })
            },
        },
        now >= old(ctx).market.betting_end_ts ==> result is Err,
        old(ctx).market@.wf() ==> final(ctx).market@.wf(),
        old(ctx).pool_state@.wf() ==> final(ctx).pool_state@.wf(),
        result is Ok ==> final(ctx).user_position@.wf(),
{
    if ctx.pool_state.market != ctx.market_key {
        return Err(DarkPoolError::InvalidPoolState);
    }
    if !ctx.pool_state.is_initialized {
        return Err(DarkPoolError::PoolStateNotInitialized);
    }
    if ctx.bettor_token_account.owner != ctx.bettor {
        return Err(DarkPoolError::InvalidTokenAccountOwner);
    }
    if ctx.bettor_token_account.mint != ctx.market.token_mint {
        return Err(DarkPoolError::InvalidTokenMint);
    }
    if ctx.vault != ctx.market.vault {
        return Err(DarkPoolError::InvalidVault);
    }
    if ctx.market.status != MarketStatus::Open {
        return Err(DarkPoolError::MarketNotOpen);
    }
    if !(now >= ctx.market.betting_start_ts) {
        return Err(DarkPoolError::BettingNotStarted);
    }
    if !(now < ctx.market.betting_end_ts) {
        return Err(DarkPoolError::BettingEnded);
    }
    if !(deposit_amount > 0) {
        return Err(DarkPoolError::InvalidBetAmount);
    }
    if encrypted_bet.len() != ENCRYPTED_BET_SIZE {
        return Err(DarkPoolError::InvalidEncryptedBetSize);
    }
    let total_positions = match ctx.market.total_positions.checked_add(1) {
        Some(n) => n,
        None => {
            return Err(DarkPoolError::Overflow);
        },
    };
    let pending_computations = match ctx.pool_state.pending_computations.checked_add(1) {
        Some(n) => n,
        None => {
            return Err(DarkPoolError::Overflow);
        },
    };
    let arguments = bet_arguments(user_pubkey, nonce, &encrypted_bet);
    ctx.user_position = UserPosition {
        market: ctx.market_key,
        owner: ctx.bettor,
        encrypted_bet,
        user_pubkey,
        nonce,
        deposit_amount,
        payout_amount: 0,
        status: PositionStatus::Pending,
        computation_id: computation_offset,
        bump: ctx.user_position_bump,
        created_at: now,
        processed_at: None,
        claimed_at: None,
    };
    ctx.market.total_positions = total_positions;
    ctx.pool_state.pending_computations = pending_computations;
    Ok(
        BetPlacement {
            escrow: TokenTransfer {
                from: ctx.bettor_token_account.key,
                to: ctx.vault,
                authority: ctx.bettor,
                amount: deposit_amount,
            },
            request: ComputationRequest { computation_offset, arguments },
            event: BetPlaced {
                market: ctx.market_key,
                position: ctx.user_position_key,
                bettor: ctx.bettor,
                deposit_amount,
                computation_id: computation_offset,
            },
        },
    )
}

/// Why the result of a bet's aggregation is rejected, if it is.
pub open spec fn process_bet_callback_refusal(
    ctx: ProcessBetCallback,
    output: ComputationOutputs<ProcessBetOutput>,
) -> Option<DarkPoolError> {
    if ctx.pool_state.market != ctx.market_key {
        Some(DarkPoolError::InvalidPoolState)
    } else if ctx.user_position.market != ctx.market_key {
        Some(DarkPoolError::InvalidPosition)
    } else if output is Failure {
        Some(DarkPoolError::ComputationAborted)
    } else if ctx.user_position.status != PositionStatus::Pending {
        None
    } else {
        ctx.pool_state@.snapshot_refusal(96)
    }
}

/// Whether the result of a bet's aggregation, once accepted, changes
/// anything: it does only while the position still awaits it.
pub open spec fn bet_result_is_fresh(ctx: ProcessBetCallback) -> bool {
    ctx.user_position.status == PositionStatus::Pending
}

/// Takes the result of a bet's aggregation.
///
/// The result is rejected as a whole, with every account unchanged, when
/// the pool state or the position belongs to another market
/// (`InvalidPoolState`, `InvalidPosition`), when the computation failed or
/// did not verify (`ComputationAborted`), or when the pool cannot take the
/// snapshot (`PoolStateNotInitialized`, `Overflow`), in that order.
///
/// A result for a position that no longer awaits one has been applied
/// before, or comes too late: it changes nothing and `Ok(None)` is
/// returned. Otherwise the snapshot replaces the pool, whose version grows
/// by exactly one, the market's commitment is refreshed and the position
/// becomes `Processed`.
pub fn process_bet_callback(
    ctx: &mut ProcessBetCallback,
    output: ComputationOutputs<ProcessBetOutput>,
    now: i64,
) -> (result: Result<Option<BetProcessed>, DarkPoolError>)
    ensures
        match process_bet_callback_refusal(*old(ctx), output) {
            Some(e) => result == Err::<Option<BetProcessed>, DarkPoolError>(e) && *final(ctx)
                == *old(ctx),
            None => if !bet_result_is_fresh(*old(ctx)) {
                result == Ok::<Option<BetProcessed>, DarkPoolError>(None) && *final(ctx) == *old(
                    ctx,
                )
            } else {
                &&& output matches ComputationOutputs::Success(snapshot)
                &&& final(ctx).pool_state@ == old(ctx).pool_state@.with_snapshot(
                    flattened(snapshot.field_0.ciphertexts@),
                    old(ctx).user_position.computation_id,
                    now,
                )
                &&& final(ctx).pool_state.state_version == old(ctx).pool_state.state_version + 1
                &&& final(ctx).market@ == (MarketView {
                    state_commitment: commitment_of(snapshot.field_0.nonce),
                    ..old(ctx).market@
                })
                &&& final(ctx).user_position@ == old(ctx).user_position@.processed(now)
                &&& *final(ctx) == (ProcessBetCallback {
                    market: final(ctx).market,
                    pool_state: final(ctx).pool_state,
                    user_position: final(ctx).user_position,
                    ..*old(ctx)
                })
                &&& result matches Ok(Some(event))
                &&& event.market == old(ctx).market_key
                &&& event.position == old(ctx).user_position_key
                &&& event.state_version == old(ctx).pool_state.state_version + 1
                &&& event.new_commitment@ == commitment_of(snapshot.field_0.nonce)
            },
        },
        old(ctx).market@.wf() ==> final(ctx).market@.wf(),
        old(ctx).pool_state@.wf() ==> final(ctx).pool_state@.wf(),
        old(ctx).user_position@.wf() ==> final(ctx).user_position@.wf(),
{
    if ctx.pool_state.market != ctx.market_key {
        return Err(DarkPoolError::InvalidPoolState);
    }
    if ctx.user_position.market != ctx.market_key {
        return Err(DarkPoolError::InvalidPosition);
    }
    let snapshot = match output {
        ComputationOutputs::Success(snapshot) => snapshot,
        ComputationOutputs::Failure => {
            return Err(DarkPoolError::ComputationAborted);
        },
    };
    if ctx.user_position.status != PositionStatus::Pending {
        return Ok(None);
    }
    let new_state = flatten_ciphertexts(&snapshot.field_0.ciphertexts);
    let commitment = commitment_from_nonce(snapshot.field_0.nonce);
    let updated = match ctx.pool_state.apply_snapshot(
        new_state,
        commitment,
        ctx.user_position.computation_id,
        now,
    ) {
        Ok(updated) => updated,
        Err(e) => {
            return Err(e);
        },
    };
    ctx.market.state_commitment = commitment;
    ctx.user_position.status = PositionStatus::Processed;
    ctx.user_position.processed_at = Some(now);
    Ok(
        Some(
            BetProcessed {
                market: ctx.market_key,
                position: ctx.user_position_key,
                state_version: updated.state_version,
                new_commitment: commitment,
            },
        ),
    )
}

} // verus!
