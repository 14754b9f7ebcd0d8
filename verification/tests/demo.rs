use daddys_club::demo::{swap, SwapAmounts, FEE_BPS};

#[test]
fn the_split_is_measured_from_the_fee_not_from_the_trade() {
    // 0.3% of a 1 000 USDC swap is 3 USDC; the rest goes to the trader.
    let amounts = swap(1_000_000_000).unwrap();
    assert_eq!(amounts.fee, 3_000_000);
    assert_eq!(amounts.amount_out, 997_000_000);
}

#[test]
fn a_fee_too_small_to_split_still_settles_the_swap() {
    // 300 x 0.3% = 0.9 -> no fee; the trader receives everything.
    assert_eq!(swap(300).unwrap(), SwapAmounts { fee: 0, amount_out: 300 });
    assert_eq!(swap(334).unwrap(), SwapAmounts { fee: 1, amount_out: 333 });
}

#[test]
fn every_swap_conserves_its_input() {
    for amount_in in [0_u64, 1, 333, 1_000_000, u64::MAX] {
        let amounts = swap(amount_in).unwrap();
        assert_eq!(amounts.fee + amounts.amount_out, amount_in);
        assert_eq!(
            amounts.fee as u128,
            amount_in as u128 * FEE_BPS as u128 / 10_000
        );
    }
}
