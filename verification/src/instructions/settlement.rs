//! Settling a position: computing its payout once the market is resolved,
//! paying it out, or refunding the deposit once the market is cancelled.

use vstd::prelude::*;
use crate::accounts::{ClaimPayout, ClaimRefund, ComputePayout, ComputePayoutCallback, TokenTransfer};
use crate::arguments::{list_operands, payout_arguments, payout_operands};
use crate::errors::DarkPoolError;
use crate::events::{PayoutClaimed, PayoutComputed, RefundClaimed};
use crate::instructions::betting::ComputationRequest;
use crate::outputs::{payout_from_scalar, payout_of, ComputationOutputs, ComputePayoutOutput};
use crate::state::market::MarketStatus;
use crate::state::position::PositionStatus;

verus! {

/// What a successful `claim_payout` asks of the caller and reports.
#[derive(Clone, Copy, Debug, PartialEq, Eq)]
pub struct PayoutRelease {
    /// The payout to move out of the vault.
    pub release: TokenTransfer,
    /// The report.
    pub event: PayoutClaimed,
}

/// What a successful `claim_refund` asks of the caller and reports.
#[derive(Clone, Copy, Debug, PartialEq, Eq)]
pub struct RefundRelease {
    /// The deposit to move out of the vault.
    pub release: TokenTransfer,
    /// The report.
    pub event: RefundClaimed,
}

/// Why the payout of a position cannot be requested, if it cannot.
pub open spec fn compute_payout_refusal(ctx: ComputePayout) -> Option<DarkPoolError> {
    if ctx.market.status != MarketStatus::Resolved {
        Some(DarkPoolError::MarketNotResolved)
    } else if ctx.pool_state.market != ctx.market_key {
        Some(DarkPoolError::InvalidPoolState)
    } else if ctx.user_position.market != ctx.market_key {
        Some(DarkPoolError::InvalidPosition)
    } else if ctx.user_position.status != PositionStatus::Processed {
        Some(DarkPoolError::InvalidMarketStatus)
    } else if ctx.market.winning_outcome is None {
        Some(DarkPoolError::MarketNotResolved)
    } else {
        None
    }
}

/// Prepares the computation of a position's payout; nothing is changed.
///
/// Refused, in this order, when the market is not `Resolved`
/// (`MarketNotResolved`), when the pool state or the position belongs to
/// another market (`InvalidPoolState`, `InvalidPosition`), when the position
/// is not `Processed` (`InvalidMarketStatus`) and when the market holds no
/// winning outcome (`MarketNotResolved`).
pub fn compute_payout(ctx: &ComputePayout, computation_offset: u64) -> (result: Result<
    ComputationRequest,
    DarkPoolError,
>)
    ensures
        match compute_payout_refusal(*ctx) {
            Some(e) => result == Err::<ComputationRequest, DarkPoolError>(e),
            None => {
                &&& result matches Ok(request)
                &&& request.computation_offset == computation_offset
                &&& list_operands(request.arguments) == payout_operands(
                    ctx.user_position.user_pubkey@,
                    ctx.user_position.nonce,
                    ctx.market.winning_outcome->Some_0,
                    ctx.user_position.deposit_amount,
                )
            },
        },
{
    if ctx.market.status != MarketStatus::Resolved {
        return Err(DarkPoolError::MarketNotResolved);
    }
    if ctx.pool_state.market != ctx.market_key {
        return Err(DarkPoolError::InvalidPoolState);
    }
    if ctx.user_position.market != ctx.market_key {
        return Err(DarkPoolError::InvalidPosition);
    }
    if ctx.user_position.status != PositionStatus::Processed {
        return Err(DarkPoolError::InvalidMarketStatus);
    }
    let winning_outcome = match ctx.market.winning_outcome {
        Some(outcome) => outcome,
        None => {
            return Err(DarkPoolError::MarketNotResolved);
        },
    };
    let arguments = payout_arguments(
        ctx.user_position.user_pubkey,
        ctx.user_position.nonce,
        winning_outcome,
        ctx.user_position.deposit_amount,
    );
    Ok(ComputationRequest { computation_offset, arguments })
}

/// Why the result of a payout's computation is rejected, if it is.
pub open spec fn compute_payout_callback_refusal(
    ctx: ComputePayoutCallback,
    output: ComputationOutputs<ComputePayoutOutput>,
) -> Option<DarkPoolError> {
    if ctx.market.status != MarketStatus::Resolved {
        Some(DarkPoolError::MarketNotResolved)
    } else if ctx.user_position.market != ctx.market_key {
        Some(DarkPoolError::InvalidPosition)
    } else if output is Failure {
        Some(DarkPoolError::ComputationAborted)
    } else {
        None
    }
}

/// Whether the result of a payout's computation, once accepted, changes
/// anything: it does only while the position still awaits it.
pub open spec fn payout_result_is_fresh(ctx: ComputePayoutCallback) -> bool {
    ctx.user_position.status == PositionStatus::Processed
}

/// Takes the result of a payout's computation.
///
/// The result is rejected as a whole, with every account unchanged, when
/// the market is not `Resolved` (`MarketNotResolved`), when the position
/// belongs to another market (`InvalidPosition`) or when the computation
/// failed or did not verify (`ComputationAborted`), in that order.
///
/// A result for a position that is not `Processed` has been applied before,
/// or does not apply: it changes nothing and `Ok(None)` is returned.
/// Otherwise the payout is written and the position becomes `PayoutComputed`.
pub fn compute_payout_callback(
    ctx: &mut ComputePayoutCallback,
    output: ComputationOutputs<ComputePayoutOutput>,
) -> (result: Result<Option<PayoutComputed>, DarkPoolError>)
    ensures
        match compute_payout_callback_refusal(*old(ctx), output) {
            Some(e) => result == Err::<Option<PayoutComputed>, DarkPoolError>(e) && *final(ctx)
                == *old(ctx),
            None => if !payout_result_is_fresh(*old(ctx)) {
                result == Ok::<Option<PayoutComputed>, DarkPoolError>(None) && *final(ctx)
                    == *old(ctx)
            } else {
                &&& output matches ComputationOutputs::Success(computed)
                &&& final(ctx).user_position@ == old(ctx).user_position@.with_payout(
                    payout_of(computed.field_0.ciphertexts@[0]),
                )
                &&& *final(ctx) == (ComputePayoutCallback {
                    user_position: final(ctx).user_position,
                    ..*old(ctx)
                })
                &&& result == Ok::<Option<PayoutComputed>, DarkPoolError>(
                    Some(
                        PayoutComputed {
                            market: old(ctx).market_key,
                            position: old(ctx).user_position_key,
                            user: old(ctx).user_position.owner,
                            payout_amount: payout_of(computed.field_0.ciphertexts@[0]),
                        },
                    ),
                )
            },
        },
        old(ctx).user_position@.wf() ==> final(ctx).user_position@.wf(),
{
    if ctx.market.status != MarketStatus::Resolved {
        return Err(DarkPoolError::MarketNotResolved);
    }
    if ctx.user_position.market != ctx.market_key {
        return Err(DarkPoolError::InvalidPosition);
    }
    let computed = match output {
        ComputationOutputs::Success(computed) => computed,
        ComputationOutputs::Failure => {
            return Err(DarkPoolError::ComputationAborted);
        },
    };
    if ctx.user_position.status != PositionStatus::Processed {
        return Ok(None);
    }
    let payout_amount = payout_from_scalar(&computed.field_0.ciphertexts[0]);
    ctx.user_position.payout_amount = payout_amount;
    ctx.user_position.status = PositionStatus::PayoutComputed;
    Ok(
        Some(
            PayoutComputed {
                market: ctx.market_key,
                position: ctx.user_position_key,
                user: ctx.user_position.owner,
                payout_amount,
            },
        ),
    )
}

/// Why a payout cannot be claimed, if it cannot.
pub open spec fn claim_payout_refusal(ctx: ClaimPayout) -> Option<DarkPoolError> {
    if !(ctx.market.status == MarketStatus::Resolved || ctx.market.status
        == MarketStatus::Settled) {
        Some(DarkPoolError::MarketNotResolved)
    } else if ctx.user_position.market != ctx.market_key {
        Some(DarkPoolError::InvalidPosition)
    } else if ctx.user_position.owner != ctx.claimer {
        Some(DarkPoolError::Unauthorized)
    } else if ctx.user_position.status != PositionStatus::PayoutComputed {
        Some(DarkPoolError::PayoutNotComputed)
    } else if ctx.claimer_token_account.owner != ctx.claimer {
        Some(DarkPoolError::InvalidTokenAccountOwner)
    } else if ctx.claimer_token_account.mint != ctx.market.token_mint {
        Some(DarkPoolError::InvalidTokenMint)
    } else if ctx.vault != ctx.market.vault {
        Some(DarkPoolError::InvalidVault)
    } else if !(ctx.user_position.payout_amount > 0) {
        Some(DarkPoolError::NoPayout)
    } else {
        None
    }
}

/// Claims the payout of a position: the position becomes `Claimed` and the
/// payout is handed back for release from the vault.
///
/// Refused, in this order, when the market is neither `Resolved` nor
/// `Settled` (`MarketNotResolved`), when the position belongs to another
/// market (`InvalidPosition`) or to another owner (`Unauthorized`), when its
/// status is not `PayoutComputed` (`PayoutNotComputed`), when the token
/// account is not the claimer's (`InvalidTokenAccountOwner`) or of another
/// mint (`InvalidTokenMint`), when the vault is not the market's
/// (`InvalidVault`) and when the payout is zero (`NoPayout`).
pub fn claim_payout(ctx: &mut ClaimPayout, now: i64) -> (result: Result<
    PayoutRelease,
    DarkPoolError,
>)
    ensures
        match claim_payout_refusal(*old(ctx)) {
            Some(e) => result == Err::<PayoutRelease, DarkPoolError>(e) && *final(ctx) == *old(
                ctx,
            ),
            None => {
                &&& final(ctx).user_position@ == old(ctx).user_position@.claimed(now)
                &&& *final(ctx) == (ClaimPayout {
                    user_position: final(ctx).user_position,
                    ..*old(ctx)
                })
                &&& result == Ok::<PayoutRelease, DarkPoolError>(
                    PayoutRelease {
                        release: TokenTransfer {
                            from: old(ctx).vault,
                            to: old(ctx).claimer_token_account.key,
                            authority: old(ctx).vault,
                            amount: old(ctx).user_position.payout_amount,
                        },
                        event: PayoutClaimed {
                            market: old(ctx).market_key,
                            position: old(ctx).user_position_key,
                            user: old(ctx).user_position.owner,
                            amount: old(ctx).user_position.payout_amount,
                        },
                    },
                )
            },
        },
        result is Ok ==> old(ctx).user_position@.can_claim_payout(),
        result is Ok ==> final(ctx).user_position@.is_terminal(),
        old(ctx).user_position@.is_terminal() ==> result is Err,
        old(ctx).user_position@.wf() ==> final(ctx).user_position@.wf(),
{
    if !(ctx.market.status == MarketStatus::Resolved || ctx.market.status
        == MarketStatus::Settled) {
        return Err(DarkPoolError::MarketNotResolved);
    }
    if ctx.user_position.market != ctx.market_key {
        return Err(DarkPoolError::InvalidPosition);
    }
    if ctx.user_position.owner != ctx.claimer {
        return Err(DarkPoolError::Unauthorized);
    }
    if ctx.user_position.status != PositionStatus::PayoutComputed {
        return Err(DarkPoolError::PayoutNotComputed);
    }
    if ctx.claimer_token_account.owner != ctx.claimer {
        return Err(DarkPoolError::InvalidTokenAccountOwner);
    }
    if ctx.claimer_token_account.mint != ctx.market.token_mint {
        return Err(DarkPoolError::InvalidTokenMint);
    }
    if ctx.vault != ctx.market.vault {
        return Err(DarkPoolError::InvalidVault);
    }
    if !(ctx.user_position.payout_amount > 0) {
        return Err(DarkPoolError::NoPayout);
    }
    let payout_amount = ctx.user_position.payout_amount;
    ctx.user_position.status = PositionStatus::Claimed;
    ctx.user_position.claimed_at = Some(now);
    Ok(
        PayoutRelease {
            release: TokenTransfer {
                from: ctx.vault,
                to: ctx.claimer_token_account.key,
                authority: ctx.vault,
                amount: payout_amount,
            },
            event: PayoutClaimed {
                market: ctx.market_key,
                position: ctx.user_position_key,
                user: ctx.user_position.owner,
                amount: payout_amount,
            },
        },
    )
}

/// Why a deposit cannot be refunded, if it cannot.
pub open spec fn claim_refund_refusal(ctx: ClaimRefund) -> Option<DarkPoolError> {
    if ctx.market.status != MarketStatus::Cancelled {
        Some(DarkPoolError::MarketNotCancelled)
    } else if ctx.user_position.market != ctx.market_key {
        Some(DarkPoolError::InvalidPosition)
    } else if ctx.user_position.owner != ctx.claimer {
        Some(DarkPoolError::Unauthorized)
    } else if ctx.claimer_token_account.owner != ctx.claimer {
        Some(DarkPoolError::InvalidTokenAccountOwner)
    } else if ctx.claimer_token_account.mint != ctx.market.token_mint {
        Some(DarkPoolError::InvalidTokenMint)
    } else if ctx.vault != ctx.market.vault {
        Some(DarkPoolError::InvalidVault)
    } else if !ctx.user_position@.can_claim_refund() {
        Some(DarkPoolError::AlreadyClaimed)
    } else {
        None
    }
}

/// Claims the refund of a position on a cancelled market: the position
/// becomes `Refunded` and the deposit is handed back for release from the
/// vault.
///
/// Refused, in this order, when the market is not `Cancelled`
/// (`MarketNotCancelled`), when the position belongs to another market
/// (`InvalidPosition`) or to another owner (`Unauthorized`), when the token
/// account is not the claimer's (`InvalidTokenAccountOwner`) or of another
/// mint (`InvalidTokenMint`), when the vault is not the market's
/// (`InvalidVault`) and when the position is neither `Pending` nor
/// `Processed` (`AlreadyClaimed`).
pub fn claim_refund(ctx: &mut ClaimRefund, now: i64) -> (result: Result<
    RefundRelease,
    DarkPoolError,
>)
    ensures
        match claim_refund_refusal(*old(ctx)) {
            Some(e) => result == Err::<RefundRelease, DarkPoolError>(e) && *final(ctx) == *old(
                ctx,
            ),
            None => {
                &&& final(ctx).user_position@ == old(ctx).user_position@.refunded(now)
                &&& *final(ctx) == (ClaimRefund {
                    user_position: final(ctx).user_position,
                    ..*old(ctx)
                })
                &&& result == Ok::<RefundRelease, DarkPoolError>(
                    RefundRelease {
                        release: TokenTransfer {
                            from: old(ctx).vault,
                            to: old(ctx).claimer_token_account.key,
                            authority: old(ctx).vault,
                            amount: old(ctx).user_position.deposit_amount,
                        },
                        event: RefundClaimed {
                            market: old(ctx).market_key,
                            position: old(ctx).user_position_key,
                            user: old(ctx).user_position.owner,
                            amount: old(ctx).user_position.deposit_amount,
                        },
                    },
                )
            },
        },
        old(ctx).market.status != MarketStatus::Cancelled ==> result is Err,
        result is Ok ==> final(ctx).user_position@.is_terminal(),
        old(ctx).user_position@.is_terminal() ==> result is Err,
        old(ctx).user_position@.wf() ==> final(ctx).user_position@.wf(),
{
    if ctx.market.status != MarketStatus::Cancelled {
        return Err(DarkPoolError::MarketNotCancelled);
    }
    if ctx.user_position.market != ctx.market_key {
        return Err(DarkPoolError::InvalidPosition);
    }
    if ctx.user_position.owner != ctx.claimer {
        return Err(DarkPoolError::Unauthorized);
    }
    if ctx.claimer_token_account.owner != ctx.claimer {
        return Err(DarkPoolError::InvalidTokenAccountOwner);
    }
    if ctx.claimer_token_account.mint != ctx.market.token_mint {
        return Err(DarkPoolError::InvalidTokenMint);
    }
    if ctx.vault != ctx.market.vault {
        return Err(DarkPoolError::InvalidVault);
    }
    if !ctx.user_position.can_claim_refund() {
        return Err(DarkPoolError::AlreadyClaimed);
    }
    let refund_amount = ctx.user_position.deposit_amount;
    ctx.user_position.status = PositionStatus::Refunded;
    ctx.user_position.claimed_at = Some(now);
    Ok(
        RefundRelease {
            release: TokenTransfer {
                from: ctx.vault,
                to: ctx.claimer_token_account.key,
                authority: ctx.vault,
                amount: refund_amount,
            },
            event: RefundClaimed {
                market: ctx.market_key,
                position: ctx.user_position_key,
                user: ctx.user_position.owner,
                amount: refund_amount,
            },
        },
    )
}

} // verus!
