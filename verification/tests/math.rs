use daddys_club::math::{
    advance_index, claimable, obligation_total, pledged_share, split_intercept, Split, BPS_DENOM,
    SCALE,
};

// ---- obligation_total ----

#[test]
fn obligation_adds_coupon_to_face() {
    // 250 000 USDC at 9.5%.
    assert_eq!(obligation_total(250_000_000_000, 950), Some(273_750_000_000));
}

#[test]
fn obligation_without_coupon_is_face() {
    assert_eq!(obligation_total(100, 0), Some(100));
}

#[test]
fn obligation_rounds_the_coupon_down() {
    // 1 x 9.5% = 0.095 -> no coupon at all.
    assert_eq!(obligation_total(1, 950), Some(1));
    // 10 001 x 0.01% = 1.0001 -> 1, not 2.
    assert_eq!(obligation_total(10_001, 1), Some(10_002));
}

#[test]
fn obligation_overflow_is_none() {
    assert_eq!(obligation_total(u128::MAX, 1), None);
}

// ---- pledged_share ----

#[test]
fn share_is_bps_of_amount() {
    assert_eq!(pledged_share(1_070_000_000, 1_200), Some(128_400_000));
}

#[test]
fn share_rounds_down() {
    // 7 x 12% = 0.84 -> 0: what is dropped stays with the issuer.
    assert_eq!(pledged_share(7, 1_200), Some(0));
}

#[test]
fn share_overflow_is_none() {
    assert_eq!(pledged_share(u128::MAX, 10_000), None);
}

// ---- split_intercept ----

#[test]
fn split_sends_the_share_and_keeps_the_rest() {
    let split = split_intercept(1_000, 1_200, u128::MAX).unwrap();
    assert_eq!(split.to_escrow, 120);
    assert_eq!(split.to_issuer, 880);
}

#[test]
fn split_never_exceeds_the_remaining_obligation() {
    let split = split_intercept(1_000, 5_000, 50).unwrap();
    assert_eq!(split.to_escrow, 50);
    assert_eq!(split.to_issuer, 950);
}

#[test]
fn split_stops_when_nothing_is_owed() {
    let split = split_intercept(1_000, 5_000, 0).unwrap();
    assert_eq!(split.to_escrow, 0);
    assert_eq!(split.to_issuer, 1_000);
}

#[test]
fn split_of_the_exact_remainder_leaves_nothing_over() {
    let split = split_intercept(1_000, 10_000, 1_000).unwrap();
    assert_eq!(split.to_escrow, 1_000);
    assert_eq!(split.to_issuer, 0);
}

#[test]
fn split_always_conserves_the_amount() {
    for amount in [0_u128, 1, 7, 999, 1_000_000] {
        for bps in [0_u16, 1, 1_200, 5_000, 10_000] {
            for remaining in [0_u128, 1, 500, u128::MAX] {
                let split = split_intercept(amount, bps, remaining).unwrap();
                assert_eq!(
                    split.to_escrow + split.to_issuer,
                    amount,
                    "amount={amount} bps={bps} remaining={remaining}"
                );
                assert!(split.to_escrow <= remaining);
            }
        }
    }
}

// ---- advance_index ----

#[test]
fn index_advances_by_amount_per_unit() {
    // 120 into the escrow over 1 000 units = 0.12 per unit.
    assert_eq!(advance_index(0, 120, 1_000), Some(SCALE * 12 / 100));
}

#[test]
fn index_accumulates() {
    let after_first = advance_index(0, 120, 1_000).unwrap();
    let after_second = advance_index(after_first, 120, 1_000).unwrap();
    assert_eq!(after_second, SCALE * 24 / 100);
}

#[test]
fn index_rounds_down_and_leaves_the_dust_in_escrow() {
    assert_eq!(advance_index(0, 1, 3), Some(333_333_333_333));
    let index = advance_index(0, 1, 3).unwrap();
    let paid_out: u128 = (0..3).map(|_| claimable(index, 0, 1, 0).unwrap()).sum();
    assert!(paid_out < 1, "paid out {paid_out}, while only 1 came in");
}

#[test]
fn index_without_supply_is_none() {
    assert_eq!(advance_index(0, 120, 0), None);
}

#[test]
fn index_overflow_is_none() {
    assert_eq!(advance_index(0, u128::MAX, 1), None);
}

// ---- claimable ----

#[test]
fn claim_is_the_index_delta_times_balance() {
    let index = advance_index(0, 120, 1_000).unwrap();
    // A holder of 250 units out of 1 000 takes a quarter of the inflow.
    assert_eq!(claimable(index, 0, 250, 0), Some(30));
}

#[test]
fn claim_counts_only_what_came_after_the_checkpoint() {
    let first = advance_index(0, 120, 1_000).unwrap();
    let second = advance_index(first, 120, 1_000).unwrap();
    assert_eq!(claimable(second, first, 250, 0), Some(30));
}

#[test]
fn claim_right_after_a_claim_is_zero() {
    let index = advance_index(0, 120, 1_000).unwrap();
    assert_eq!(claimable(index, index, 250, 0), Some(0));
}

#[test]
fn claim_adds_what_the_hook_already_accrued() {
    let index = advance_index(0, 120, 1_000).unwrap();
    assert_eq!(claimable(index, index, 250, 17), Some(17));
}

#[test]
fn claim_without_balance_is_only_the_accrued() {
    let index = advance_index(0, 120, 1_000).unwrap();
    assert_eq!(claimable(index, 0, 0, 5), Some(5));
}

#[test]
fn claim_rounds_down() {
    let index = advance_index(0, 120, 1_000).unwrap();
    assert_eq!(claimable(index, 0, 1, 0), Some(0));
}

#[test]
fn claim_from_a_checkpoint_in_the_future_is_none() {
    assert_eq!(claimable(10, 11, 1, 0), None);
}

#[test]
fn claim_overflow_is_none() {
    assert_eq!(claimable(u128::MAX, 0, u128::MAX, 0), None);
}

#[test]
fn holders_never_take_more_than_came_in() {
    let supply = 7_u128;
    let mut index = 0_u128;
    let mut received = 0_u128;
    for amount in [1_u128, 2, 3, 5, 8, 13, 21, 34, 55, 89] {
        index = advance_index(index, amount, supply).unwrap();
        received += amount;
    }
    let paid_out: u128 = (0..supply)
        .map(|_| claimable(index, 0, 1, 0).unwrap())
        .sum();
    assert!(paid_out <= received, "paid out {paid_out} against inflows of {received}");
}

// ---- own checks ----

#[test]
fn the_constants_are_the_documented_ones() {
    assert_eq!(SCALE, 1_000_000_000_000);
    assert_eq!(BPS_DENOM, 10_000);
}

#[test]
fn a_share_above_the_whole_inflow_is_none_once_it_passes_the_remaining() {
    // 200% of 10 is 20: more than the inflow and within what is owed.
    assert_eq!(split_intercept(10, 20_000, 100), None);
    // The same share capped below the inflow by the remaining obligation.
    assert_eq!(
        split_intercept(10, 20_000, 5),
        Some(Split { to_escrow: 5, to_issuer: 5 })
    );
}

#[test]
fn a_split_within_the_whole_succeeds_for_any_remaining() {
    for remaining in [0_u128, 3, 120, u128::MAX] {
        let split = split_intercept(1_000, 1_200, remaining).unwrap();
        assert_eq!(split.to_escrow + split.to_issuer, 1_000);
        assert_eq!(split.to_escrow, remaining.min(120));
    }
}

#[test]
fn a_claim_at_the_checkpoint_is_only_the_accrued_at_any_balance() {
    let index = advance_index(0, 120, 1_000).unwrap();
    for balance in [0_u128, 1, 250, u128::MAX] {
        assert_eq!(claimable(index, index, balance, 9), Some(9));
    }
}
