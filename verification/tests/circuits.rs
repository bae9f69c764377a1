use dark_pool::circuits::{
    compute_payout, get_odds, process_bet, ComputePayoutInput, OddsInput, OddsResult,
    PayoutResult, ProcessBetInput, ProcessBetResult, ODDS_SCALE,
};
use dark_pool::errors::DarkPoolError;

fn payout(
    user_outcome: u8,
    user_amount: u64,
    winning_outcome: u8,
    winning_pool: u64,
    losing_pool: u64,
) -> Result<PayoutResult, DarkPoolError> {
    compute_payout(ComputePayoutInput {
        user_outcome,
        user_amount,
        winning_outcome,
        winning_pool,
        losing_pool,
    })
}

fn odds(outcome: u8, amount: u64, pool_yes: u64, pool_no: u64) -> Result<OddsResult, DarkPoolError> {
    get_odds(OddsInput { outcome, amount, pool_yes, pool_no })
}

#[test]
fn valid_bet_is_echoed() {
    let r = process_bet(ProcessBetInput { outcome: 1, amount: 250 });
    assert_eq!(r, ProcessBetResult { validated_outcome: 1, validated_amount: 250, success: 1 });
    let r = process_bet(ProcessBetInput { outcome: 0, amount: u64::MAX });
    assert_eq!(
        r,
        ProcessBetResult { validated_outcome: 0, validated_amount: u64::MAX, success: 1 }
    );
}

#[test]
fn bet_with_bad_outcome_is_zeroed() {
    let r = process_bet(ProcessBetInput { outcome: 2, amount: 250 });
    assert_eq!(r, ProcessBetResult { validated_outcome: 0, validated_amount: 0, success: 0 });
    let r = process_bet(ProcessBetInput { outcome: 255, amount: 1 });
    assert_eq!(r.success, 0);
    assert_eq!(r.validated_outcome, 0);
    assert_eq!(r.validated_amount, 0);
}

#[test]
fn bet_with_zero_amount_is_zeroed() {
    let r = process_bet(ProcessBetInput { outcome: 1, amount: 0 });
    assert_eq!(r, ProcessBetResult { validated_outcome: 0, validated_amount: 0, success: 0 });
}

#[test]
fn winner_gets_stake_and_share() {
    assert_eq!(payout(1, 100, 1, 500, 300), Ok(PayoutResult { payout: 160 }));
}

#[test]
fn winner_share_is_rounded_down() {
    // 7 * 10 / 3 = 23.33..
    assert_eq!(payout(0, 7, 0, 3, 10), Ok(PayoutResult { payout: 30 }));
    assert_eq!(payout(1, 1, 1, 3, 2), Ok(PayoutResult { payout: 1 }));
}

#[test]
fn loser_gets_nothing() {
    assert_eq!(payout(0, 100, 1, 500, 300), Ok(PayoutResult { payout: 0 }));
    assert_eq!(payout(0, 100, 1, 0, 300), Ok(PayoutResult { payout: 0 }));
}

#[test]
fn winner_of_empty_pool_gets_stake_back() {
    assert_eq!(payout(1, 100, 1, 0, 300), Ok(PayoutResult { payout: 100 }));
    assert_eq!(payout(0, u64::MAX, 0, 0, u64::MAX), Ok(PayoutResult { payout: u64::MAX }));
}

#[test]
fn payout_uses_wide_product() {
    // The product exceeds 64 bits, the payout does not.
    let half = 1u64 << 63;
    assert_eq!(payout(1, half, 1, half, 4), Ok(PayoutResult { payout: half + 4 }));
}

#[test]
fn payout_beyond_64_bits_is_refused() {
    assert_eq!(payout(1, u64::MAX, 1, 1, 2), Err(DarkPoolError::Overflow));
    assert_eq!(payout(1, u64::MAX, 1, u64::MAX, 1), Err(DarkPoolError::Overflow));
    assert_eq!(
        payout(1, u64::MAX - 1, 1, u64::MAX, 1),
        Ok(PayoutResult { payout: u64::MAX - 1 })
    );
}

#[test]
fn odds_of_yes_bet() {
    assert_eq!(odds(1, 0, 400, 600), Ok(OddsResult { odds: 1_500_000_000 }));
}

#[test]
fn odds_of_no_bet() {
    assert_eq!(odds(0, 0, 400, 600), Ok(OddsResult { odds: 666_666_666 }));
    // Any outcome but 1 counts as NO.
    assert_eq!(odds(7, 0, 400, 600), Ok(OddsResult { odds: 666_666_666 }));
}

#[test]
fn odds_count_the_bet_on_both_sides() {
    // (600 + 100) * 1e9 / (400 + 100)
    assert_eq!(odds(1, 100, 400, 600), Ok(OddsResult { odds: 1_400_000_000 }));
}

#[test]
fn odds_of_empty_pools_are_even() {
    assert_eq!(odds(1, 0, 0, 0), Ok(OddsResult { odds: 1_000_000_000 }));
    assert_eq!(odds(0, 0, 0, 0), Ok(OddsResult { odds: ODDS_SCALE }));
    // The bettor's own pool is empty although the other is not.
    assert_eq!(odds(1, 0, 0, 50), Ok(OddsResult { odds: ODDS_SCALE }));
}

#[test]
fn odds_beyond_64_bits_are_refused() {
    assert_eq!(odds(1, 0, 1, u64::MAX), Err(DarkPoolError::Overflow));
    assert_eq!(odds(1, u64::MAX, u64::MAX, u64::MAX), Ok(OddsResult { odds: ODDS_SCALE }));
    assert_eq!(odds(0, u64::MAX, 0, u64::MAX), Ok(OddsResult { odds: 500_000_000 }));
}

#[test]
fn winners_together_get_no_more_than_the_pools() {
    // Stakes that divide the losing pool evenly: the pools are paid out in full.
    let total: u64 = [100u64, 400]
        .iter()
        .map(|stake| payout(1, *stake, 1, 500, 300).unwrap().payout)
        .sum();
    assert_eq!(total, 800);
    // Stakes that do not: the remainder stays behind.
    let total: u64 =
        [1u64, 1, 1].iter().map(|stake| payout(0, *stake, 0, 3, 2).unwrap().payout).sum();
    assert_eq!(total, 3);
    let total: u64 =
        [3u64, 7].iter().map(|stake| payout(1, *stake, 1, 10, 9).unwrap().payout).sum();
    assert_eq!(total, 5 + 13);
    assert!(total <= 10 + 9);
}
