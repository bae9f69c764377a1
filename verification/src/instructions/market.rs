//! The life of a market: creation, opening, closing, resolution, cancellation.

use vstd::prelude::*;
use vstd::string::StrSliceExecFns;
use crate::accounts::{CancelMarket, CloseBetting, CreateMarket, OpenMarket, ResolveMarket};
use crate::constants::MAX_QUESTION_LEN;
use crate::errors::DarkPoolError;
use crate::events::{BettingClosed, MarketCancelled, MarketCreated, MarketOpened, MarketResolved};
use crate::state::market::{DarkMarket, MarketStatus, MarketView};
use crate::state::pool::{EncryptedPoolState, PoolView};

verus! {

/// Why a market with these parameters cannot be created, if it cannot.
pub open spec fn create_market_refusal(
    question: Seq<char>,
    betting_start_ts: i64,
    betting_end_ts: i64,
    resolution_end_ts: i64,
    now: i64,
) -> Option<DarkPoolError> {
    if question.len() > MAX_QUESTION_LEN {
        Some(DarkPoolError::QuestionTooLong)
    } else if !(betting_start_ts < betting_end_ts) {
        Some(DarkPoolError::InvalidDeadlines)
    } else if !(betting_end_ts < resolution_end_ts) {
        Some(DarkPoolError::InvalidDeadlines)
    } else if !(betting_start_ts >= now) {
        Some(DarkPoolError::DeadlineInPast)
    } else {
        None
    }
}

/// The market that `create_market` writes.
pub open spec fn created_market(
    ctx: CreateMarket,
    market_id: u64,
    question: Seq<char>,
    betting_start_ts: i64,
    betting_end_ts: i64,
    resolution_end_ts: i64,
    now: i64,
) -> MarketView {
    MarketView {
        authority: ctx.authority,
        market_id,
        question,
        token_mint: ctx.token_mint,
        vault: ctx.vault,
        pool_state: ctx.pool_state_key,
        betting_start_ts,
        betting_end_ts,
        resolution_end_ts,
        status: MarketStatus::Created,
        winning_outcome: None,
        total_positions: 0,
        state_commitment: Seq::new(32, |i: int| 0u8),
        bump: ctx.bumps.market,
        vault_bump: ctx.bumps.vault,
        pool_state_bump: ctx.bumps.pool_state,
        created_at: now,
        resolved_at: None,
    }
}

/// The pool state that `create_market` writes: empty, at version 0, not activated.
pub open spec fn created_pool(ctx: CreateMarket, now: i64) -> PoolView {
    PoolView {
        market: ctx.market_key,
        encrypted_state: Seq::empty(),
        state_version: 0,
        last_computation_id: 0,
        pending_computations: 0,
        last_updated: now,
        bump: ctx.bumps.pool_state,
        is_initialized: false,
    }
}

/// Creates a market and its pool state.
///
/// Refused when the question holds more than `MAX_QUESTION_LEN` characters
/// (`QuestionTooLong`), when the deadlines are not strictly increasing
/// (`InvalidDeadlines`) or when betting would start before `now`
/// (`DeadlineInPast`), in that order.
pub fn create_market(
    ctx: &mut CreateMarket,
    market_id: u64,
    question: String,
    betting_start_ts: i64,
    betting_end_ts: i64,
    resolution_end_ts: i64,
    now: i64,
) -> (result: Result<MarketCreated, DarkPoolError>)
    ensures
        match create_market_refusal(
            question@,
            betting_start_ts,
            betting_end_ts,
            resolution_end_ts,
            now,
        ) {
            Some(e) => result == Err::<MarketCreated, DarkPoolError>(e) && *final(ctx) == *old(
                ctx,
            ),
            None => {
                &&& final(ctx).market@ == created_market(
                    *old(ctx),
                    market_id,
                    question@,
                    betting_start_ts,
                    betting_end_ts,
                    resolution_end_ts,
                    now,
                )
                &&& final(ctx).pool_state@ == created_pool(*old(ctx), now)
                &&& *final(ctx) == (CreateMarket {
                    market: final(ctx).market,
                    pool_state: final(ctx).pool_state,
                    ..*old(ctx)
                })
                &&& final(ctx).market@.wf()
                &&& final(ctx).pool_state@.wf()
                &&& result == Ok::<MarketCreated, DarkPoolError>(
                    MarketCreated {
                        market: old(ctx).market_key,
                        market_id,
                        authority: old(ctx).authority,
                        token_mint: old(ctx).token_mint,
                        betting_end_ts,
                        resolution_end_ts,
                    },
                )
            },
        },
{
    if question.as_str().unicode_len() > MAX_QUESTION_LEN {
        return Err(DarkPoolError::QuestionTooLong);
    }
    if !(betting_start_ts < betting_end_ts) {
        return Err(DarkPoolError::InvalidDeadlines);
    }
    if !(betting_end_ts < resolution_end_ts) {
        return Err(DarkPoolError::InvalidDeadlines);
    }
    if !(betting_start_ts >= now) {
        return Err(DarkPoolError::DeadlineInPast);
    }
    ctx.market = DarkMarket {
        authority: ctx.authority,
        market_id,
        question,
        token_mint: ctx.token_mint,
        vault: ctx.vault,
        pool_state: ctx.pool_state_key,
        betting_start_ts,
        betting_end_ts,
        resolution_end_ts,
        status: MarketStatus::Created,
        winning_outcome: None,
        total_positions: 0,
        state_commitment: [0u8; 32],
        bump: ctx.bumps.market,
        vault_bump: ctx.bumps.vault,
        pool_state_bump: ctx.bumps.pool_state,
        created_at: now,
        resolved_at: None,
    };
    ctx.pool_state = EncryptedPoolState {
        market: ctx.market_key,
        encrypted_state: Vec::new(),
        state_version: 0,
        last_computation_id: 0,
        pending_computations: 0,
        last_updated: now,
        bump: ctx.bumps.pool_state,
        is_initialized: false,
    };
    proof {
        assert(ctx.market@.state_commitment =~= Seq::new(32, |i: int| 0u8));
        assert(ctx.pool_state@.encrypted_state =~= Seq::<u8>::empty());
    }
    Ok(
        MarketCreated {
            market: ctx.market_key,
            market_id,
            authority: ctx.authority,
            token_mint: ctx.token_mint,
            betting_end_ts,
            resolution_end_ts,
        },
    )
}

/// Why a market cannot be opened, if it cannot.
pub open spec fn open_market_refusal(ctx: OpenMarket) -> Option<DarkPoolError> {
    if ctx.authority != ctx.market.authority {
        Some(DarkPoolError::Unauthorized)
    } else if ctx.pool_state.market != ctx.market_key {
        Some(DarkPoolError::InvalidPoolState)
    } else if ctx.market.status != MarketStatus::Created {
        Some(DarkPoolError::InvalidMarketStatus)
    } else {
        None
    }
}

/// Opens a created market for betting and activates its pool.
///
/// Refused when the signer is not the market's authority (`Unauthorized`),
/// when the pool state belongs to another market (`InvalidPoolState`) or
/// when the market is not in status `Created` (`InvalidMarketStatus`), in
/// that order.
pub fn open_market(ctx: &mut OpenMarket, now: i64) -> (result: Result<MarketOpened, DarkPoolError>)
    ensures
        match open_market_refusal(*old(ctx)) {
            Some(e) => result == Err::<MarketOpened, DarkPoolError>(e) && *final(ctx) == *old(
                ctx,
            ),
            None => {
                &&& final(ctx).market@ == (MarketView {
                    status: MarketStatus::Open,
                    ..old(ctx).market@
                })
                &&& final(ctx).pool_state@ == old(ctx).pool_state@.activated()
                &&& *final(ctx) == (OpenMarket {
                    market: final(ctx).market,
                    pool_state: final(ctx).pool_state,
                    ..*old(ctx)
                })
                &&& result == Ok::<MarketOpened, DarkPoolError>(
                    MarketOpened { market: old(ctx).market_key, opened_at: now },
                )
            },
        },
        old(ctx).market@.wf() ==> final(ctx).market@.wf(),
        old(ctx).pool_state@.wf() ==> final(ctx).pool_state@.wf(),
{
    if ctx.authority != ctx.market.authority {
        return Err(DarkPoolError::Unauthorized);
    }
    if ctx.pool_state.market != ctx.market_key {
        return Err(DarkPoolError::InvalidPoolState);
    }
    if ctx.market.status != MarketStatus::Created {
        return Err(DarkPoolError::InvalidMarketStatus);
    }
    ctx.pool_state.activate();
    ctx.market.status = MarketStatus::Open;
    Ok(MarketOpened { market: ctx.market_key, opened_at: now })
}

/// Why betting on a market cannot be closed at `now`, if it cannot.
pub open spec fn close_betting_refusal(ctx: CloseBetting, now: i64) -> Option<DarkPoolError> {
    if ctx.authority != ctx.market.authority {
        Some(DarkPoolError::Unauthorized)
    } else if ctx.market.status != MarketStatus::Open {
        Some(DarkPoolError::InvalidMarketStatus)
    } else if !(now >= ctx.market.betting_end_ts) {
        Some(DarkPoolError::BettingNotEnded)
    } else {
        None
    }
}

/// Closes the betting period of an open market once its end is reached.
///
/// Refused when the signer is not the market's authority (`Unauthorized`),
/// when the market is not `Open` (`InvalidMarketStatus`) or when `now` lies
/// before the end of betting (`BettingNotEnded`), in that order.
pub fn close_betting(ctx: &mut CloseBetting, now: i64) -> (result: Result<
    BettingClosed,
    DarkPoolError,
>)
    ensures
        match close_betting_refusal(*old(ctx), now) {
            Some(e) => result == Err::<BettingClosed, DarkPoolError>(e) && *final(ctx) == *old(
                ctx,
            ),
            None => {
                &&& final(ctx).market@ == (MarketView {
                    status: MarketStatus::BettingClosed,
                    ..old(ctx).market@
                })
                &&& *final(ctx) == (CloseBetting { market: final(ctx).market, ..*old(ctx) })
                &&& result == Ok::<BettingClosed, DarkPoolError>(
                    BettingClosed {
                        market: old(ctx).market_key,
                        total_positions: old(ctx).market.total_positions,
                        closed_at: now,
                    },
                )
            },
        },
        old(ctx).market@.wf() ==> final(ctx).market@.wf(),
{
    if ctx.authority != ctx.market.authority {
        return Err(DarkPoolError::Unauthorized);
    }
    if ctx.market.status != MarketStatus::Open {
        return Err(DarkPoolError::InvalidMarketStatus);
    }
    if !(now >= ctx.market.betting_end_ts) {
        return Err(DarkPoolError::BettingNotEnded);
    }
    ctx.market.status = MarketStatus::BettingClosed;
    Ok(
        BettingClosed {
            market: ctx.market_key,
            total_positions: ctx.market.total_positions,
            closed_at: now,
        },
    )
}

/// Why a market cannot be resolved at `now` with the given outcome, if it cannot.
pub open spec fn resolve_market_refusal(ctx: ResolveMarket, winning_outcome: u8, now: i64) -> Option<
    DarkPoolError,
> {
    if ctx.authority != ctx.market.authority {
        Some(DarkPoolError::Unauthorized)
    } else if !(ctx.market.status == MarketStatus::Open || ctx.market.status
        == MarketStatus::BettingClosed) {
        Some(DarkPoolError::InvalidMarketStatus)
    } else if !(now >= ctx.market.betting_end_ts) {
        Some(DarkPoolError::BettingNotEnded)
    } else if !(winning_outcome <= 1) {
        Some(DarkPoolError::InvalidOutcome)
    } else {
        None
    }
}

/// Resolves a market: records the winning outcome, once and for all.
///
/// Refused when the signer is not the market's authority (`Unauthorized`),
/// when the market is neither `Open` nor `BettingClosed`
/// (`InvalidMarketStatus`), when `now` lies before the end of betting
/// (`BettingNotEnded`) or when the outcome is neither 0 nor 1
/// (`InvalidOutcome`), in that order.
pub fn resolve_market(ctx: &mut ResolveMarket, winning_outcome: u8, now: i64) -> (result: Result<
    MarketResolved,
    DarkPoolError,
>)
    ensures
        match resolve_market_refusal(*old(ctx), winning_outcome, now) {
            Some(e) => result == Err::<MarketResolved, DarkPoolError>(e) && *final(ctx) == *old(
                ctx,
            ),
            None => {
                &&& final(ctx).market@ == (MarketView {
                    winning_outcome: Some(winning_outcome),
                    status: MarketStatus::Resolved,
                    resolved_at: Some(now),
                    ..old(ctx).market@
                })
                &&& *final(ctx) == (ResolveMarket { market: final(ctx).market, ..*old(ctx) })
                &&& result == Ok::<MarketResolved, DarkPoolError>(
                    MarketResolved {
                        market: old(ctx).market_key,
                        winning_outcome,
                        resolved_at: now,
                    },
                )
            },
        },
        now < old(ctx).market.betting_end_ts ==> result is Err,
        old(ctx).market@.wf() ==> final(ctx).market@.wf(),
{
    if ctx.authority != ctx.market.authority {
        return Err(DarkPoolError::Unauthorized);
    }
    if !(ctx.market.status == MarketStatus::Open || ctx.market.status
        == MarketStatus::BettingClosed) {
        return Err(DarkPoolError::InvalidMarketStatus);
    }
    if !(now >= ctx.market.betting_end_ts) {
        return Err(DarkPoolError::BettingNotEnded);
    }
    if !(winning_outcome <= 1) {
        return Err(DarkPoolError::InvalidOutcome);
    }
    ctx.market.winning_outcome = Some(winning_outcome);
    ctx.market.status = MarketStatus::Resolved;
    ctx.market.resolved_at = Some(now);
    Ok(MarketResolved { market: ctx.market_key, winning_outcome, resolved_at: now })
}

/// Why a market cannot be cancelled, if it cannot.
pub open spec fn cancel_market_refusal(ctx: CancelMarket) -> Option<DarkPoolError> {
    if ctx.authority != ctx.market.authority {
        Some(DarkPoolError::Unauthorized)
    } else if !(ctx.market.status == MarketStatus::Created || ctx.market.status
        == MarketStatus::Open || ctx.market.status == MarketStatus::BettingClosed) {
        Some(DarkPoolError::InvalidMarketStatus)
    } else {
        None
    }
}

/// Cancels a market that has not been resolved, which unlocks refunds.
///
/// Refused when the signer is not the market's authority (`Unauthorized`)
/// or when the market is not `Created`, `Open` or `BettingClosed`
/// (`InvalidMarketStatus`), in that order.
pub fn cancel_market(ctx: &mut CancelMarket, now: i64) -> (result: Result<
    MarketCancelled,
    DarkPoolError,
>)
    ensures
        match cancel_market_refusal(*old(ctx)) {
            Some(e) => result == Err::<MarketCancelled, DarkPoolError>(e) && *final(ctx) == *old(
                ctx,
            ),
            None => {
                &&& final(ctx).market@ == (MarketView {
                    status: MarketStatus::Cancelled,
                    ..old(ctx).market@
                })
                &&& *final(ctx) == (CancelMarket { market: final(ctx).market, ..*old(ctx) })
                &&& result == Ok::<MarketCancelled, DarkPoolError>(
                    MarketCancelled { market: old(ctx).market_key, cancelled_at: now },
                )
            },
        },
        old(ctx).market.status == MarketStatus::Resolved ==> result is Err,
        old(ctx).market@.wf() ==> final(ctx).market@.wf(),
{
    if ctx.authority != ctx.market.authority {
        return Err(DarkPoolError::Unauthorized);
    }
    if !(ctx.market.status == MarketStatus::Created || ctx.market.status == MarketStatus::Open
        || ctx.market.status == MarketStatus::BettingClosed) {
        return Err(DarkPoolError::InvalidMarketStatus);
    }
    ctx.market.status = MarketStatus::Cancelled;
    Ok(MarketCancelled { market: ctx.market_key, cancelled_at: now })
}

} // verus!
