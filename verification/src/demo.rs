//! The reference issuer: a minimal swap that withholds a fee and hands it to
//! interception in the same transaction.
//!
//! The rate is fixed: for `amount_in` USDC the trader receives as much of the
//! base token as is left after the fee, unit for unit. The fee lands on the
//! source's account before interception runs, and interception is called
//! even when the fee rounds to nothing, so the history of the source does not
//! depend on the size of the swap.
use vstd::prelude::*;
use crate::math::BPS_DENOM;

verus! {

/// The swap fee: 0.3% of the input.
pub const FEE_BPS: u16 = 30;

/// Named errors of the reference issuer.
#[derive(Clone, Copy, Debug, PartialEq, Eq, Structural)]
pub enum DemoError {
    /// Arithmetic overflow; unreachable while the fee is at most 100%.
    MathOverflow,
}

/// The two amounts of a swap: the fee, handed to interception, and what the
/// trader receives.
#[derive(Clone, Copy, Debug, PartialEq, Eq)]
pub struct SwapAmounts {
    pub fee: u64,
    pub amount_out: u64,
}

/// The fee of a swap of `amount_in`, rounded down: what is dropped stays
/// with the trader.
pub open spec fn swap_fee_spec(amount_in: u64) -> int {
    (amount_in * FEE_BPS) / (BPS_DENOM as int)
}

/// Splits the input of a swap into the fee and the output. Every input is
/// accepted: the fee never exceeds it.
pub fn swap(amount_in: u64) -> (r: Result<SwapAmounts, DemoError>)
    ensures
        r matches Ok(amounts) && amounts.fee == swap_fee_spec(amount_in) && amounts.fee
            + amounts.amount_out == amount_in,
        r matches Ok(amounts) && amounts.fee == (amount_in * 30) / 10_000int,
{
    assert(amount_in * FEE_BPS <= u128::MAX) by (nonlinear_arith)
        requires
            amount_in <= u64::MAX,
            FEE_BPS == 30,
    ;
    let scaled = amount_in as u128 * FEE_BPS as u128;
    let fee = scaled / BPS_DENOM;
    assert(fee <= amount_in) by (nonlinear_arith)
        requires
            scaled == amount_in * 30,
            fee == scaled / 10_000,
    ;
    let fee = fee as u64;
    Ok(SwapAmounts { fee, amount_out: amount_in - fee })
}

} // verus!
