//! What holds of the market across operations: how often a position pays,
//! how the pool's counters move with requests and results, and which
//! operations the life cycles shut out.

use vstd::prelude::*;
use crate::accounts::{
    CancelMarket,
    ClaimPayout,
    ClaimRefund,
    ComputePayoutCallback,
    PlaceBet,
    ProcessBetCallback,
    ResolveMarket,
};
use crate::circuits::{payout_value, ComputePayoutInput};
use crate::constants::ENCRYPTED_STATE_SIZE;
use crate::errors::DarkPoolError;
use crate::instructions::betting::{
    bet_result_is_fresh,
    place_bet_refusal,
    process_bet_callback_refusal,
};
use crate::instructions::market::{cancel_market_refusal, resolve_market_refusal};
use crate::instructions::settlement::{
    claim_payout_refusal,
    claim_refund_refusal,
    payout_result_is_fresh,
};
use crate::outputs::{ComputationOutputs, ProcessBetOutput};
use crate::state::market::MarketStatus;
use crate::state::pool::PoolView;
use crate::state::position::{PositionStatus, PositionView};

verus! {

/// One step in the life of a position, with every check on the market and
/// on the signer taken as passed: a refusal there changes nothing.
pub enum PositionStep {
    /// The result of the bet's aggregation arrives.
    BetResult { now: i64 },
    /// The result of the payout's computation arrives.
    PayoutResult { payout_amount: u64 },
    /// The owner claims the payout.
    ClaimPayout { now: i64 },
    /// The owner claims a refund.
    ClaimRefund { now: i64 },
}

/// The position after one step. A step that does not apply leaves it as it is.
pub open spec fn position_after_step(p: PositionView, step: PositionStep) -> PositionView {
    match step {
        PositionStep::BetResult { now } => if p.status == PositionStatus::Pending {
            p.processed(now)
        } else {
            p
        },
        PositionStep::PayoutResult { payout_amount } => if p.status == PositionStatus::Processed {
            p.with_payout(payout_amount)
        } else {
            p
        },
        PositionStep::ClaimPayout { now } => if p.can_claim_payout() {
            p.claimed(now)
        } else {
            p
        },
        PositionStep::ClaimRefund { now } => if p.can_claim_refund() {
            p.refunded(now)
        } else {
            p
        },
    }
}

/// The tokens that one step releases from the vault.
pub open spec fn paid_by_step(p: PositionView, step: PositionStep) -> int {
    match step {
        PositionStep::ClaimPayout { .. } => if p.can_claim_payout() {
            p.payout_amount as int
        } else {
            0
        },
        PositionStep::ClaimRefund { .. } => if p.can_claim_refund() {
            p.deposit_amount as int
        } else {
            0
        },
        _ => 0,
    }
}

/// Whether one step releases tokens from the vault.
pub open spec fn step_pays(p: PositionView, step: PositionStep) -> bool {
    match step {
        PositionStep::ClaimPayout { .. } => p.can_claim_payout(),
        PositionStep::ClaimRefund { .. } => p.can_claim_refund(),
        _ => false,
    }
}

/// The position after the given steps, in order.
pub open spec fn position_after(p: PositionView, steps: Seq<PositionStep>) -> PositionView
    decreases steps.len(),
{
    if steps.len() == 0 {
        p
    } else {
        position_after_step(position_after(p, steps.drop_last()), steps.last())
    }
}

/// How many of the given steps release tokens.
pub open spec fn payments(p: PositionView, steps: Seq<PositionStep>) -> nat
    decreases steps.len(),
{
    if steps.len() == 0 {
        0
    } else {
        payments(p, steps.drop_last()) + if step_pays(
            position_after(p, steps.drop_last()),
            steps.last(),
        ) {
            1nat
        } else {
            0nat
        }
    }
}

/// The tokens that the given steps release in all.
pub open spec fn total_paid(p: PositionView, steps: Seq<PositionStep>) -> int
    decreases steps.len(),
{
    if steps.len() == 0 {
        0
    } else {
        total_paid(p, steps.drop_last()) + paid_by_step(
            position_after(p, steps.drop_last()),
            steps.last(),
        )
    }
}

/// Value is conserved: whatever results arrive and whatever is claimed, in
/// whatever order, a position releases tokens at most once. What it
/// releases is its computed payout or its deposit, the deposit on record
/// never changes, and a well-formed position stays well-formed.
pub proof fn position_pays_at_most_once(p: PositionView, steps: Seq<PositionStep>)
    ensures
        payments(p, steps) <= 1,
        payments(p, steps) == 1 ==> position_after(p, steps).is_terminal(),
        payments(p, steps) == 0 ==> total_paid(p, steps) == 0,
        payments(p, steps) == 1 ==> total_paid(p, steps) == p.deposit_amount || total_paid(
            p,
            steps,
        ) == position_after(p, steps).payout_amount,
        position_after(p, steps).deposit_amount == p.deposit_amount,
        p.wf() ==> position_after(p, steps).wf(),
    decreases steps.len(),
{
    if steps.len() > 0 {
        position_pays_at_most_once(p, steps.drop_last());
    }
}

/// What `process_bet_callback` does to a position, whenever it does not
/// reject the result, is the step `BetResult`.
pub proof fn bet_result_is_a_step(ctx: ProcessBetCallback, now: i64)
    ensures
        position_after_step(ctx.user_position@, PositionStep::BetResult { now }) == if bet_result_is_fresh(
            ctx,
        ) {
            ctx.user_position@.processed(now)
        } else {
            ctx.user_position@
        },
        !step_pays(ctx.user_position@, PositionStep::BetResult { now }),
{
}

/// What `compute_payout_callback` does to a position, whenever it does not
/// reject the result, is the step `PayoutResult`.
pub proof fn payout_result_is_a_step(ctx: ComputePayoutCallback, payout_amount: u64)
    ensures
        position_after_step(ctx.user_position@, PositionStep::PayoutResult { payout_amount })
            == if payout_result_is_fresh(ctx) {
            ctx.user_position@.with_payout(payout_amount)
        } else {
            ctx.user_position@
        },
        !step_pays(ctx.user_position@, PositionStep::PayoutResult { payout_amount }),
{
}

/// What a successful `claim_payout` does to a position is the step
/// `ClaimPayout`, and what it releases is what that step pays.
pub proof fn payout_claim_is_a_step(ctx: ClaimPayout, now: i64)
    requires
        claim_payout_refusal(ctx) is None,
    ensures
        position_after_step(ctx.user_position@, PositionStep::ClaimPayout { now })
            == ctx.user_position@.claimed(now),
        paid_by_step(ctx.user_position@, PositionStep::ClaimPayout { now })
            == ctx.user_position.payout_amount,
        step_pays(ctx.user_position@, PositionStep::ClaimPayout { now }),
{
}

/// What a successful `claim_refund` does to a position is the step
/// `ClaimRefund`, and what it releases is what that step pays.
pub proof fn refund_claim_is_a_step(ctx: ClaimRefund, now: i64)
    requires
        claim_refund_refusal(ctx) is None,
    ensures
        position_after_step(ctx.user_position@, PositionStep::ClaimRefund { now })
            == ctx.user_position@.refunded(now),
        paid_by_step(ctx.user_position@, PositionStep::ClaimRefund { now })
            == ctx.user_position.deposit_amount,
        step_pays(ctx.user_position@, PositionStep::ClaimRefund { now }),
{
}

/// A position that was paid or refunded is refused every further claim.
pub proof fn settled_position_refuses_claims(payout: ClaimPayout, refund: ClaimRefund)
    requires
        payout.user_position@.is_terminal(),
        refund.user_position@.is_terminal(),
    ensures
        claim_payout_refusal(payout) is Some,
        claim_refund_refusal(refund) is Some,
{
}

/// Claiming a payout twice fails the second time: with the same accounts,
/// the position now being `Claimed`, the claim is refused with
/// `PayoutNotComputed`.
pub proof fn second_payout_claim_is_refused(first: ClaimPayout, second: ClaimPayout, now: i64)
    requires
        claim_payout_refusal(first) is None,
        second.user_position@ == first.user_position@.claimed(now),
        second == (ClaimPayout { user_position: second.user_position, ..first }),
    ensures
        claim_payout_refusal(second) == Some(DarkPoolError::PayoutNotComputed),
{
}

/// Claiming a refund twice fails the second time: with the same accounts,
/// the position now being `Refunded`, the claim is refused with
/// `AlreadyClaimed`.
pub proof fn second_refund_claim_is_refused(first: ClaimRefund, second: ClaimRefund, now: i64)
    requires
        claim_refund_refusal(first) is None,
        second.user_position@ == first.user_position@.refunded(now),
        second == (ClaimRefund { user_position: second.user_position, ..first }),
    ensures
        claim_refund_refusal(second) == Some(DarkPoolError::AlreadyClaimed),
{
}

/// Once the result of a bet's aggregation has been applied, the position no
/// longer awaits one: a second delivery finds nothing fresh and changes nothing.
pub proof fn applied_bet_result_is_not_fresh(
    first: ProcessBetCallback,
    second: ProcessBetCallback,
    now: i64,
)
    requires
        bet_result_is_fresh(first),
        second.user_position@ == first.user_position@.processed(now),
    ensures
        !bet_result_is_fresh(second),
{
}

/// The sum of the given stakes.
pub open spec fn total_stake(stakes: Seq<u64>) -> int
    decreases stakes.len(),
{
    if stakes.len() == 0 {
        0
    } else {
        total_stake(stakes.drop_last()) + stakes.last()
    }
}

/// What a winner with the given stake is owed.
pub open spec fn winner_payout(stake: u64, winning_pool: u64, losing_pool: u64) -> int {
    payout_value(
        ComputePayoutInput {
            user_outcome: 1,
            user_amount: stake,
            winning_outcome: 1,
            winning_pool,
            losing_pool,
        },
    )
}

/// The sum of what winners with the given stakes are owed.
pub open spec fn total_winner_payout(stakes: Seq<u64>, winning_pool: u64, losing_pool: u64) -> int
    decreases stakes.len(),
{
    if stakes.len() == 0 {
        0
    } else {
        total_winner_payout(stakes.drop_last(), winning_pool, losing_pool) + winner_payout(
            stakes.last(),
            winning_pool,
            losing_pool,
        )
    }
}

/// `winning_pool` times the shares of the losing pool that the winners
/// take is at most `losing_pool` times their stakes: rounding down only
/// ever leaves tokens in the vault.
proof fn shares_are_bounded(stakes: Seq<u64>, winning_pool: u64, losing_pool: u64)
    requires
        winning_pool > 0,
    ensures
        winning_pool * (total_winner_payout(stakes, winning_pool, losing_pool) - total_stake(
            stakes,
        )) <= losing_pool * total_stake(stakes),
        total_winner_payout(stakes, winning_pool, losing_pool) >= total_stake(stakes),
        total_stake(stakes) >= 0,
    decreases stakes.len(),
{
    let w = winning_pool as int;
    let l = losing_pool as int;
    let stake = total_stake(stakes);
    let shares = total_winner_payout(stakes, winning_pool, losing_pool) - stake;
    if stakes.len() == 0 {
        assert(w * shares == 0 && l * stake == 0) by (nonlinear_arith)
            requires
                shares == 0,
                stake == 0,
        ;
    } else {
        shares_are_bounded(stakes.drop_last(), winning_pool, losing_pool);
        let a = stakes.last() as int;
        let stake_before = total_stake(stakes.drop_last());
        let shares_before = total_winner_payout(stakes.drop_last(), winning_pool, losing_pool)
            - stake_before;
        let share = (a * l) / w;
        assert(winner_payout(stakes.last(), winning_pool, losing_pool) == a + share);
        assert(shares == shares_before + share);
        assert(stake == stake_before + a);
        assert(0 <= share && w * share <= a * l) by (nonlinear_arith)
            requires
                w > 0,
                a >= 0,
                l >= 0,
                share == (a * l) / w,
        ;
        assert(w * shares <= l * stake) by (nonlinear_arith)
            requires
                shares == shares_before + share,
                stake == stake_before + a,
                w * shares_before <= l * stake_before,
                w * share <= a * l,
        ;
    }
}

/// No value is created: when the winners' stakes are part of the winning
/// pool, all that the winners are owed together is at most the two pools
/// together, and every winner is owed at least the stake.
pub proof fn winners_are_owed_no_more_than_the_pools(
    stakes: Seq<u64>,
    winning_pool: u64,
    losing_pool: u64,
)
    requires
        total_stake(stakes) <= winning_pool,
    ensures
        total_stake(stakes) <= total_winner_payout(stakes, winning_pool, losing_pool)
            <= total_stake(stakes) + losing_pool,
        total_winner_payout(stakes, winning_pool, losing_pool) <= winning_pool + losing_pool,
{
    if winning_pool > 0 {
        shares_are_bounded(stakes, winning_pool, losing_pool);
        let w = winning_pool as int;
        let l = losing_pool as int;
        let t = total_stake(stakes);
        let shares = total_winner_payout(stakes, winning_pool, losing_pool) - t;
        assert(shares <= l) by (nonlinear_arith)
            requires
                w > 0,
                l >= 0,
                0 <= t <= w,
                w * shares <= l * t,
        ;
    } else {
        refunds_when_nothing_won(stakes, losing_pool);
    }
}

/// With no winning stake on record, every winner is owed the stake alone.
proof fn refunds_when_nothing_won(stakes: Seq<u64>, losing_pool: u64)
    ensures
        total_winner_payout(stakes, 0, losing_pool) == total_stake(stakes),
    decreases stakes.len(),
{
    if stakes.len() > 0 {
        refunds_when_nothing_won(stakes.drop_last(), losing_pool);
    }
}

/// One step in the life of a pool.
pub enum PoolStep {
    /// A bet is placed: one more request is in flight.
    Request,
    /// The result of an aggregation is applied.
    Snapshot { state: Seq<u8>, computation_id: u64, now: i64 },
}

/// The pool after one step. A step that is refused leaves it as it is.
pub open spec fn pool_after_step(pool: PoolView, step: PoolStep) -> PoolView {
    match step {
        PoolStep::Request => if pool.pending_computations == u32::MAX {
            pool
        } else {
            pool.with_request()
        },
        PoolStep::Snapshot { state, computation_id, now } => if pool.snapshot_refusal(state.len())
            is None {
            pool.with_snapshot(state, computation_id, now)
        } else {
            pool
        },
    }
}

/// What a successful `place_bet` does to the pool is the step `Request`.
pub proof fn placed_bet_is_a_step(
    ctx: PlaceBet,
    encrypted_bet: Seq<u8>,
    deposit_amount: u64,
    now: i64,
)
    requires
        place_bet_refusal(ctx, encrypted_bet, deposit_amount, now) is None,
    ensures
        pool_after_step(ctx.pool_state@, PoolStep::Request) == ctx.pool_state@.with_request(),
{
}

/// What `process_bet_callback` does to the pool when it applies a result
/// is the step `Snapshot`.
pub proof fn applied_bet_result_is_a_step(
    ctx: ProcessBetCallback,
    output: ComputationOutputs<ProcessBetOutput>,
    state: Seq<u8>,
    now: i64,
)
    requires
        process_bet_callback_refusal(ctx, output) is None,
        bet_result_is_fresh(ctx),
        state.len() == 96,
    ensures
        pool_after_step(
            ctx.pool_state@,
            PoolStep::Snapshot { state, computation_id: ctx.user_position.computation_id, now },
        ) == ctx.pool_state@.with_snapshot(state, ctx.user_position.computation_id, now),
{
}

/// The pool after the given steps, in order.
pub open spec fn pool_after(pool: PoolView, steps: Seq<PoolStep>) -> PoolView
    decreases steps.len(),
{
    if steps.len() == 0 {
        pool
    } else {
        pool_after_step(pool_after(pool, steps.drop_last()), steps.last())
    }
}

/// How many of the given steps are requests.
pub open spec fn requests(steps: Seq<PoolStep>) -> nat
    decreases steps.len(),
{
    if steps.len() == 0 {
        0
    } else {
        requests(steps.drop_last()) + if steps.last() is Request {
            1nat
        } else {
            0nat
        }
    }
}

/// How many of the given steps are snapshots.
pub open spec fn snapshots(steps: Seq<PoolStep>) -> nat
    decreases steps.len(),
{
    if steps.len() == 0 {
        0
    } else {
        snapshots(steps.drop_last()) + if steps.last() is Snapshot {
            1nat
        } else {
            0nat
        }
    }
}

/// Every snapshot among the steps fits the pool's payload.
pub open spec fn snapshots_fit(steps: Seq<PoolStep>) -> bool
    decreases steps.len(),
{
    if steps.len() == 0 {
        true
    } else {
        &&& snapshots_fit(steps.drop_last())
        &&& steps.last() matches PoolStep::Snapshot { state, .. } ==> state.len()
            <= ENCRYPTED_STATE_SIZE
    }
}

/// Every snapshot among the steps answers a request that was in flight: at
/// no point have more results arrived than requests were made, counting
/// the `pending` that were in flight at the start.
pub open spec fn results_answer_requests(pending: nat, steps: Seq<PoolStep>) -> bool
    decreases steps.len(),
{
    if steps.len() == 0 {
        true
    } else {
        &&& results_answer_requests(pending, steps.drop_last())
        &&& snapshots(steps) <= pending + requests(steps)
    }
}

/// On an activated pool whose counters have room, requests and results move
/// the counters exactly: the version grows by one with every snapshot
/// applied, in whatever order requests and snapshots alternate, and the
/// number of requests in flight is the number made less the number answered.
pub proof fn pool_counters_follow_steps(pool: PoolView, steps: Seq<PoolStep>)
    requires
        pool.is_initialized,
        snapshots_fit(steps),
        results_answer_requests(pool.pending_computations as nat, steps),
        pool.state_version + snapshots(steps) <= u64::MAX,
        pool.pending_computations + requests(steps) <= u32::MAX,
    ensures
        pool_after(pool, steps).is_initialized,
        pool_after(pool, steps).state_version == pool.state_version + snapshots(steps),
        pool_after(pool, steps).pending_computations == pool.pending_computations + requests(
            steps,
        ) - snapshots(steps),
    decreases steps.len(),
{
    if steps.len() > 0 {
        pool_counters_follow_steps(pool, steps.drop_last());
    }
}

/// Once every request in flight has been answered, none is in flight: a
/// pool that starts with none and takes as many snapshots as requests ends
/// with none.
pub proof fn pending_returns_to_zero(pool: PoolView, steps: Seq<PoolStep>)
    requires
        pool.is_initialized,
        pool.pending_computations == 0,
        snapshots_fit(steps),
        results_answer_requests(0, steps),
        pool.state_version + snapshots(steps) <= u64::MAX,
        requests(steps) <= u32::MAX,
        requests(steps) == snapshots(steps),
    ensures
        pool_after(pool, steps).pending_computations == 0,
{
    pool_counters_follow_steps(pool, steps);
}

/// A market cannot be resolved before its betting period has ended: the
/// attempt is refused, and when the signer is the authority the refusal
/// names the market's state.
pub proof fn resolving_before_betting_ends_is_refused(
    ctx: ResolveMarket,
    winning_outcome: u8,
    now: i64,
)
    requires
        now < ctx.market.betting_end_ts,
    ensures
        resolve_market_refusal(ctx, winning_outcome, now) is Some,
        ctx.authority == ctx.market.authority ==> resolve_market_refusal(ctx, winning_outcome, now)
            == Some(DarkPoolError::InvalidMarketStatus) || resolve_market_refusal(
            ctx,
            winning_outcome,
            now,
        ) == Some(DarkPoolError::BettingNotEnded),
{
}

/// No bet is taken once the betting period has ended.
pub proof fn betting_after_the_end_is_refused(
    ctx: PlaceBet,
    encrypted_bet: Seq<u8>,
    deposit_amount: u64,
    now: i64,
)
    requires
        now >= ctx.market.betting_end_ts,
    ensures
        place_bet_refusal(ctx, encrypted_bet, deposit_amount, now) is Some,
{
}

/// A resolved market cannot be cancelled.
pub proof fn resolved_market_is_not_cancelled(ctx: CancelMarket)
    requires
        ctx.market.status == MarketStatus::Resolved,
    ensures
        cancel_market_refusal(ctx) is Some,
        ctx.authority == ctx.market.authority ==> cancel_market_refusal(ctx) == Some(
            DarkPoolError::InvalidMarketStatus,
        ),
{
}

/// No deposit is refunded unless the market is cancelled.
pub proof fn refund_needs_a_cancelled_market(ctx: ClaimRefund)
    requires
        ctx.market.status != MarketStatus::Cancelled,
    ensures
        claim_refund_refusal(ctx) == Some(DarkPoolError::MarketNotCancelled),
{
}

} // verus!
