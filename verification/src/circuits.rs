//! The arithmetic that the compute cluster evaluates over encrypted operands,
//! given here by what it computes on the plaintext.

use vstd::prelude::*;
use crate::errors::DarkPoolError;

verus! {

/// Fixed-point scale of implied odds: odds of 1:1 are `ODDS_SCALE`.
pub const ODDS_SCALE: u64 = 1_000_000_000;

/// A bet as its bettor submitted it.
#[derive(Clone, Copy, Debug, PartialEq, Eq, Structural)]
pub struct ProcessBetInput {
    /// 0 = NO, 1 = YES.
    pub outcome: u8,
    /// Stake in tokens.
    pub amount: u64,
}

/// A bet after validation.
#[derive(Clone, Copy, Debug, PartialEq, Eq, Structural)]
pub struct ProcessBetResult {
    /// The outcome of a valid bet, 0 for an invalid one.
    pub validated_outcome: u8,
    /// The amount of a valid bet, 0 for an invalid one.
    pub validated_amount: u64,
    /// 1 for a valid bet, 0 for an invalid one.
    pub success: u8,
}

/// What a payout is computed from.
#[derive(Clone, Copy, Debug, PartialEq, Eq, Structural)]
pub struct ComputePayoutInput {
    /// The side the user bet on.
    pub user_outcome: u8,
    /// The user's stake.
    pub user_amount: u64,
    /// The side that won.
    pub winning_outcome: u8,
    /// Total stake on the winning side.
    pub winning_pool: u64,
    /// Total stake on the losing side.
    pub losing_pool: u64,
}

/// A computed payout.
#[derive(Clone, Copy, Debug, PartialEq, Eq, Structural)]
pub struct PayoutResult {
    /// Tokens owed to the user.
    pub payout: u64,
}

/// What implied odds are computed from.
#[derive(Clone, Copy, Debug, PartialEq, Eq, Structural)]
pub struct OddsInput {
    /// The side of the prospective bet: 1 = YES, anything else = NO.
    pub outcome: u8,
    /// The prospective stake.
    pub amount: u64,
    /// Total stake on YES.
    pub pool_yes: u64,
    /// Total stake on NO.
    pub pool_no: u64,
}

/// Implied odds, scaled by `ODDS_SCALE`.
#[derive(Clone, Copy, Debug, PartialEq, Eq, Structural)]
pub struct OddsResult {
    /// `ODDS_SCALE` times the ratio of the opposite pool to the bettor's pool.
    pub odds: u64,
}

/// A bet is valid when its outcome is 0 or 1 and its amount is not zero.
pub open spec fn bet_is_valid(input: ProcessBetInput) -> bool {
    input.outcome <= 1 && input.amount != 0
}

/// The validated form of a bet: the bet itself when valid, all zeros otherwise.
pub open spec fn validated_bet(input: ProcessBetInput) -> ProcessBetResult {
    if bet_is_valid(input) {
        ProcessBetResult {
            validated_outcome: input.outcome,
            validated_amount: input.amount,
            success: 1,
        }
    } else {
        ProcessBetResult { validated_outcome: 0, validated_amount: 0, success: 0 }
    }
}

/// The payout owed on a bet, as an unbounded integer: nothing to a loser; to
/// a winner the stake plus the stake's proportional share of the losing pool,
/// rounded down; the stake alone when no winning stake is recorded.
pub open spec fn payout_value(input: ComputePayoutInput) -> int {
    if input.user_outcome != input.winning_outcome {
        0
    } else if input.winning_pool > 0 {
        input.user_amount + (input.user_amount * input.losing_pool) / (input.winning_pool as int)
    } else {
        input.user_amount as int
    }
}

/// The pool that a prospective bet would join, the bet included.
pub open spec fn own_pool(input: OddsInput) -> int {
    if input.outcome == 1 {
        input.pool_yes + input.amount
    } else {
        input.pool_no + input.amount
    }
}

/// The pool opposite to a prospective bet, with the bet's amount added.
pub open spec fn opposite_pool(input: OddsInput) -> int {
    if input.outcome == 1 {
        input.pool_no + input.amount
    } else {
        input.pool_yes + input.amount
    }
}

/// Implied odds as an unbounded integer: the scaled ratio of the opposite
/// pool to the bettor's own, rounded down; 1:1 when the bettor's pool is empty.
pub open spec fn odds_value(input: OddsInput) -> int {
    if own_pool(input) > 0 {
        (opposite_pool(input) * ODDS_SCALE) / own_pool(input)
    } else {
        ODDS_SCALE as int
    }
}

/// Validates a bet. An invalid bet is reported with `success == 0` and
/// contributes nothing: both validated fields are zero.
pub fn process_bet(input: ProcessBetInput) -> (result: ProcessBetResult)
    ensures
        result == validated_bet(input),
        input.outcome > 1 ==> result.success == 0 && result.validated_outcome == 0,
        input.amount == 0 ==> result.success == 0 && result.validated_amount == 0,
        input.outcome <= 1 && input.amount != 0 ==> result.success == 1
            && result.validated_outcome == input.outcome && result.validated_amount
            == input.amount,
{
    let valid_outcome = input.outcome <= 1;
    let valid_amount = input.amount != 0;
    if valid_outcome && valid_amount {
        ProcessBetResult {
            validated_outcome: input.outcome,
            validated_amount: input.amount,
            success: 1,
        }
    } else {
        ProcessBetResult { validated_outcome: 0, validated_amount: 0, success: 0 }
    }
}

/// Computes the payout owed on a bet once the winning side is known.
///
/// The payout is exact whenever it fits in 64 bits; one that does not is
/// refused with `Overflow` and never truncated.
pub fn compute_payout(input: ComputePayoutInput) -> (result: Result<PayoutResult, DarkPoolError>)
    ensures
        payout_value(input) <= u64::MAX ==> result == Ok::<PayoutResult, DarkPoolError>(
            PayoutResult { payout: payout_value(input) as u64 },
        ),
        payout_value(input) > u64::MAX ==> result == Err::<PayoutResult, DarkPoolError>(
            DarkPoolError::Overflow,
        ),
        input.user_outcome == input.winning_outcome ==> (result matches Ok(p) ==> p.payout
            >= input.user_amount),
{
    if input.user_outcome != input.winning_outcome {
        return Ok(PayoutResult { payout: 0 });
    }
    if input.winning_pool == 0 {
        return Ok(PayoutResult { payout: input.user_amount });
    }
    let stake: u128 = input.user_amount as u128;
    let losing: u128 = input.losing_pool as u128;
    let winning: u128 = input.winning_pool as u128;
    proof {
        assert(stake * losing <= 0xffff_ffff_ffff_ffff * 0xffff_ffff_ffff_ffff)
            by (nonlinear_arith)
            requires
                0 <= stake <= 0xffff_ffff_ffff_ffff,
                0 <= losing <= 0xffff_ffff_ffff_ffff,
        ;
        assert(0 <= (stake * losing) / (winning as int) <= stake * losing) by (nonlinear_arith)
            requires
                0 <= stake * losing,
                winning >= 1,
        ;
    }
    let share: u128 = (stake * losing) / winning;
    let total: u128 = stake + share;
    if total > u64::MAX as u128 {
        Err(DarkPoolError::Overflow)
    } else {
        Ok(PayoutResult { payout: total as u64 })
    }
}

/// Computes the odds implied by a prospective bet, without handing out
/// either pool.
///
/// The odds are exact whenever they fit in 64 bits; odds that do not are
/// refused with `Overflow`.
pub fn get_odds(input: OddsInput) -> (result: Result<OddsResult, DarkPoolError>)
    ensures
        odds_value(input) <= u64::MAX ==> result == Ok::<OddsResult, DarkPoolError>(
            OddsResult { odds: odds_value(input) as u64 },
        ),
        odds_value(input) > u64::MAX ==> result == Err::<OddsResult, DarkPoolError>(
            DarkPoolError::Overflow,
        ),
{
    let amount: u128 = input.amount as u128;
    let yes: u128 = input.pool_yes as u128;
    let no: u128 = input.pool_no as u128;
    let my_pool: u128 = if input.outcome == 1 {
        yes + amount
    } else {
        no + amount
    };
    let opposite: u128 = if input.outcome == 1 {
        no + amount
    } else {
        yes + amount
    };
    if my_pool == 0 {
        return Ok(OddsResult { odds: ODDS_SCALE });
    }
    proof {
        assert(opposite * 1_000_000_000 <= 0x2_0000_0000_0000_0000 * 1_000_000_000);
    }
    let scaled: u128 = opposite * (ODDS_SCALE as u128);
    let odds: u128 = scaled / my_pool;
    if odds > u64::MAX as u128 {
        Err(DarkPoolError::Overflow)
    } else {
        Ok(OddsResult { odds: odds as u64 })
    }
}

} // verus!
