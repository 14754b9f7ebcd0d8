//! The secondary market of bonds: listing, buying and cancelling offers.
//!
//! The seller sets the price; the protocol neither quotes it nor takes the
//! other side. An offer is "this many bonds for this much USDC", bought as a
//! whole. The listed bonds move into an escrow that only this market can move,
//! so nothing can be sold twice. The trading fee is withheld from what the
//! seller receives: the buyer pays exactly the price.
//!
//! The escrow keeps a ledger of its own while the offer stands, and what the
//! listed lot earns there belongs to the seller: until a purchase the seller
//! could cancel and take the lot back, so the risk was theirs all along. Both
//! a purchase and a cancellation move the lot out of the escrow, which makes
//! the hook settle the escrow's ledger on the lot, claim what it holds and
//! forward it to the seller in the same instruction.
use vstd::prelude::*;
use crate::errors::ClubError;
use crate::hook::{execute_spec, settle, settle_spec};
use crate::invest::{claim, claim_spec, fresh_ledger};
use crate::math::{bps_of_spec, claimable_spec, earned_spec, BPS_DENOM};
use crate::state::{HolderCheckpoint, Issue, Key};

verus! {

/// Named errors of the market.
#[derive(Clone, Copy, Debug, PartialEq, Eq, Structural)]
pub enum MarketError {
    /// An offer names a positive amount and a positive price.
    OfferTermsInvalid,
    /// The offer was already bought or cancelled.
    OfferNotActive,
    /// Only what is held can be sold.
    InsufficientBondBalance,
    /// Arithmetic overflow.
    MathOverflow,
}

/// Position of a variant in the declaration.
pub open spec fn market_error_index(e: MarketError) -> nat {
    match e {
        MarketError::OfferTermsInvalid => 0,
        MarketError::OfferNotActive => 1,
        MarketError::InsufficientBondBalance => 2,
        MarketError::MathOverflow => 3,
    }
}

/// The message a client sees beside the code.
pub open spec fn market_error_message(e: MarketError) -> Seq<char> {
    match e {
        MarketError::OfferTermsInvalid => "Offer amount and price must both be above zero"@,
        MarketError::OfferNotActive => "Offer is no longer active"@,
        MarketError::InsufficientBondBalance => "Insufficient bond balance"@,
        MarketError::MathOverflow => "Arithmetic overflow"@,
    }
}

impl MarketError {
    /// The number a client sees: the program's offset plus the position.
    pub fn code(&self) -> (r: u32)
        ensures
            r == 6000 + market_error_index(*self),
    {
        match self {
            MarketError::OfferTermsInvalid => 6000,
            MarketError::OfferNotActive => 6001,
            MarketError::InsufficientBondBalance => 6002,
            MarketError::MathOverflow => 6003,
        }
    }

    /// The message attached to the code.
    pub fn message(&self) -> (r: &'static str)
        ensures
            r@ == market_error_message(*self),
    {
        match self {
            MarketError::OfferTermsInvalid => "Offer amount and price must both be above zero",
            MarketError::OfferNotActive => "Offer is no longer active",
            MarketError::InsufficientBondBalance => "Insufficient bond balance",
            MarketError::MathOverflow => "Arithmetic overflow",
        }
    }
}

/// Why a purchase was refused: by the market's own rules, or by the core
/// program while the lot moved out of the escrow.
#[derive(Clone, Copy, Debug, PartialEq, Eq, Structural)]
pub enum TradeError {
    Market(MarketError),
    Ledger(ClubError),
}

/// An offer: `amount` bond units for `price` USDC as a whole.
#[derive(Clone, Copy, Debug, PartialEq, Eq)]
pub struct Offer {
    pub seller: Key,
    pub issue: Key,
    pub amount: u64,
    pub price: u64,
    pub token_escrow: Key,
    pub nonce: u64,
    pub bump: u8,
}

/// What a listing does: the offer written, and whether the escrow's ledger
/// has to be opened first (anyone may have opened it in advance).
#[derive(Clone, Copy, Debug, PartialEq, Eq)]
pub struct Listing {
    pub offer: Offer,
    pub open_escrow_ledger: bool,
}

/// What a purchase moves: the lot to the buyer, `to_seller` and `fee` out of
/// the buyer's USDC, whether the buyer's ledger is opened first and the fee
/// transfer made at all, and `forwarded`, what the lot earned in the escrow
/// while the offer stood, claimed from the repayment escrow and passed on to
/// the seller. `escrow_ledger` is the escrow's ledger afterwards.
#[derive(Clone, Copy, Debug, PartialEq, Eq)]
pub struct Purchase {
    pub bond_amount: u64,
    pub to_seller: u64,
    pub fee: u64,
    pub open_buyer_ledger: bool,
    pub pay_fee: bool,
    pub forwarded: u64,
    pub escrow_ledger: HolderCheckpoint,
}

/// What a cancellation moves: the whole lot back to the seller, and what it
/// earned in the escrow while the offer stood, with no fee.
#[derive(Clone, Copy, Debug, PartialEq, Eq)]
pub struct Cancellation {
    pub bond_amount: u64,
    pub forwarded: u64,
    pub escrow_ledger: HolderCheckpoint,
}

/// The fee withheld from `price`: `price * fee_bps / BPS_DENOM` rounded down,
/// when `price * fee_bps` fits.
pub open spec fn trading_fee_spec(price: u128, fee_bps: u16) -> Result<u128, MarketError> {
    match bps_of_spec(price, fee_bps) {
        None => Err(MarketError::MathOverflow),
        Some(fee) => Ok(fee),
    }
}

/// What `create_offer` answers.
pub open spec fn create_offer_spec(
    seller: Key,
    issue: Key,
    token_escrow: Key,
    nonce: u64,
    bump: u8,
    amount: u64,
    price: u64,
    seller_bond_balance: u64,
    escrow_ledger_exists: bool,
) -> Result<Listing, MarketError> {
    if !(amount > 0 && price > 0) {
        Err(MarketError::OfferTermsInvalid)
    } else if seller_bond_balance < amount {
        Err(MarketError::InsufficientBondBalance)
    } else {
        Ok(
            Listing {
                offer: Offer { seller, issue, amount, price, token_escrow, nonce, bump },
                open_escrow_ledger: !escrow_ledger_exists,
            },
        )
    }
}

/// The lot leaving the escrow at `index`: the hook settles the escrow's
/// ledger on the lot it held, and what that leaves accrued is claimed (the
/// escrow holds nothing any more) to be forwarded. Nothing is claimed when
/// nothing accrued.
pub open spec fn release_spec(escrow_ledger: HolderCheckpoint, index: u128, lot: u64) -> Result<(HolderCheckpoint, u64), ClubError> {
    match settle_spec(escrow_ledger, index, lot as u128) {
        Err(e) => Err(e),
        Ok(settled) => if settled.accrued == 0 {
            Ok((settled, 0u64))
        } else {
            claim_spec(settled, index, 0)
        },
    }
}

/// What `buy_offer` answers.
pub open spec fn buy_offer_spec(
    offer: Offer,
    trading_fee_bps: u16,
    buyer_ledger_exists: bool,
    escrow_ledger: HolderCheckpoint,
    payout_index: u128,
) -> Result<Purchase, TradeError> {
    match trading_fee_spec(offer.price as u128, trading_fee_bps) {
        Err(e) => Err(TradeError::Market(e)),
        Ok(fee) => if fee > offer.price {
            Err(TradeError::Market(MarketError::MathOverflow))
        } else {
            match release_spec(escrow_ledger, payout_index, offer.amount) {
                Err(e) => Err(TradeError::Ledger(e)),
                Ok((after, forwarded)) => Ok(
                    Purchase {
                        bond_amount: offer.amount,
                        to_seller: (offer.price - fee) as u64,
                        fee: fee as u64,
                        open_buyer_ledger: !buyer_ledger_exists,
                        pay_fee: fee > 0,
                        forwarded,
                        escrow_ledger: after,
                    },
                ),
            }
        },
    }
}

/// What `cancel_offer` answers.
pub open spec fn cancel_offer_spec(offer: Offer, escrow_ledger: HolderCheckpoint, payout_index: u128) -> Result<
    Cancellation,
    ClubError,
> {
    match release_spec(escrow_ledger, payout_index, offer.amount) {
        Err(e) => Err(e),
        Ok((after, forwarded)) => Ok(
            Cancellation { bond_amount: offer.amount, forwarded, escrow_ledger: after },
        ),
    }
}

/// The trading fee of a purchase, withheld from the price and rounded down:
/// the protocol never takes more than the announced rate.
pub fn trading_fee(price: u128, fee_bps: u16) -> (r: Result<u128, MarketError>)
    ensures
        r == trading_fee_spec(price, fee_bps),
        r matches Ok(fee) ==> fee == (price * fee_bps) / 10_000int,
        r is Ok <==> price * fee_bps <= u128::MAX,
{
    match price.checked_mul(fee_bps as u128) {
        None => Err(MarketError::MathOverflow),
        Some(scaled) => match scaled.checked_div(BPS_DENOM) {
            None => Err(MarketError::MathOverflow),
            Some(fee) => Ok(fee),
        },
    }
}

/// Lists `amount` bond units for `price` USDC. No partial fills: the lot is
/// bought whole. The refusal to sell more than is held is named here rather
/// than left to the token program.
pub fn create_offer(
    seller: Key,
    issue: Key,
    token_escrow: Key,
    nonce: u64,
    bump: u8,
    amount: u64,
    price: u64,
    seller_bond_balance: u64,
    escrow_ledger_exists: bool,
) -> (r: Result<Listing, MarketError>)
    ensures
        r == create_offer_spec(
            seller,
            issue,
            token_escrow,
            nonce,
            bump,
            amount,
            price,
            seller_bond_balance,
            escrow_ledger_exists,
        ),
        r is Ok <==> (amount > 0 && price > 0 && seller_bond_balance >= amount),
        r matches Ok(l) ==> l.offer == (Offer { seller, issue, amount, price, token_escrow, nonce, bump })
            && l.open_escrow_ledger == !escrow_ledger_exists,
{
    if !(amount > 0 && price > 0) {
        return Err(MarketError::OfferTermsInvalid);
    }
    if seller_bond_balance < amount {
        return Err(MarketError::InsufficientBondBalance);
    }
    Ok(
        Listing {
            offer: Offer { seller, issue, amount, price, token_escrow, nonce, bump },
            open_escrow_ledger: !escrow_ledger_exists,
        },
    )
}

/// Moves the lot out of the escrow's ledger at `index` and claims what it
/// earned there, exactly as the hook and a claim do on chain.
fn release(escrow_ledger: &HolderCheckpoint, index: u128, lot: u64) -> (r: Result<(HolderCheckpoint, u64), ClubError>)
    ensures
        r == release_spec(*escrow_ledger, index, lot),
{
    let mut ledger = *escrow_ledger;
    match settle(&mut ledger, index, lot as u128) {
        Err(e) => {
            return Err(e);
        },
        Ok(()) => {},
    }
    if ledger.accrued == 0 {
        return Ok((ledger, 0));
    }
    match claim(&mut ledger, index, 0) {
        Err(e) => Err(e),
        Ok(paid) => Ok((ledger, paid)),
    }
}

/// Buys an offer whole: the buyer pays exactly `price`, the seller receives it
/// less the trading fee, the fee goes to the treasury when it is not zero,
/// and the buyer's ledger is opened in the same transaction when missing.
/// What the lot earned in the escrow while the offer stood, as the escrow's
/// ledger and the issue's `payout_index` show it, is claimed and forwarded to
/// the seller on top of the price.
pub fn buy_offer(
    offer: &Offer,
    trading_fee_bps: u16,
    buyer_ledger_exists: bool,
    escrow_ledger: &HolderCheckpoint,
    payout_index: u128,
) -> (r: Result<Purchase, TradeError>)
    ensures
        r == buy_offer_spec(*offer, trading_fee_bps, buyer_ledger_exists, *escrow_ledger, payout_index),
        r matches Ok(p) ==> {
            &&& p.fee == (offer.price * trading_fee_bps) / 10_000int
            &&& p.pay_fee == (p.fee > 0)
            &&& p.open_buyer_ledger == !buyer_ledger_exists
            &&& p.escrow_ledger.accrued == 0
            &&& p.escrow_ledger.index_at_checkpoint == payout_index
            &&& p.to_seller + p.fee == offer.price
            &&& p.bond_amount == offer.amount
            &&& Some(p.forwarded as u128) == claimable_spec(
                payout_index,
                escrow_ledger.index_at_checkpoint,
                offer.amount as u128,
                escrow_ledger.accrued as u128,
            )
        },
{
    let fee = match trading_fee(offer.price as u128, trading_fee_bps) {
        Err(e) => {
            return Err(TradeError::Market(e));
        },
        Ok(f) => f,
    };
    let to_seller = match (offer.price as u128).checked_sub(fee) {
        None => {
            return Err(TradeError::Market(MarketError::MathOverflow));
        },
        Some(t) => t,
    };
    let (after, forwarded) = match release(escrow_ledger, payout_index, offer.amount) {
        Err(e) => {
            return Err(TradeError::Ledger(e));
        },
        Ok(x) => x,
    };
    Ok(
        Purchase {
            bond_amount: offer.amount,
            to_seller: to_seller as u64,
            fee: fee as u64,
            open_buyer_ledger: !buyer_ledger_exists,
            pay_fee: fee > 0,
            forwarded,
            escrow_ledger: after,
        },
    )
}

/// Cancels an offer: the whole lot goes back to the seller with no fee, and
/// what it earned in the escrow while the offer stood is claimed and
/// forwarded to the seller, so cancelling costs the owner nothing.
pub fn cancel_offer(offer: &Offer, escrow_ledger: &HolderCheckpoint, payout_index: u128) -> (r: Result<
    Cancellation,
    ClubError,
>)
    ensures
        r == cancel_offer_spec(*offer, *escrow_ledger, payout_index),
        r matches Ok(c) ==> {
            &&& c.escrow_ledger.accrued == 0
            &&& c.escrow_ledger.index_at_checkpoint == payout_index
            &&& c.bond_amount == offer.amount
            &&& Some(c.forwarded as u128) == claimable_spec(
                payout_index,
                escrow_ledger.index_at_checkpoint,
                offer.amount as u128,
                escrow_ledger.accrued as u128,
            )
        },
{
    match release(escrow_ledger, payout_index, offer.amount) {
        Err(e) => Err(e),
        Ok((after, forwarded)) => Ok(Cancellation { bond_amount: offer.amount, forwarded, escrow_ledger: after }),
    }
}

/// Nothing the lot earned in the escrow is lost when it leaves: the escrow's
/// ledger ends on the index with nothing accrued, and what was forwarded is
/// what it had accrued plus what the lot earned since its checkpoint.
pub proof fn law_what_the_lot_earned_while_listed_is_forwarded(escrow_ledger: HolderCheckpoint, index: u128, lot: u64)
    requires
        release_spec(escrow_ledger, index, lot) is Ok,
    ensures
        ({
            let (after, forwarded) = release_spec(escrow_ledger, index, lot).unwrap();
            &&& forwarded == escrow_ledger.accrued + earned_spec(index, escrow_ledger.index_at_checkpoint, lot as u128)
            &&& after.accrued == 0
            &&& after.index_at_checkpoint == index
            &&& after.claimed_total == escrow_ledger.claimed_total + forwarded
        }),
{
}

/// The price never makes a purchase fail for a fee rate the protocol
/// accepts: with a rate of at most the whole price, and the lot leaving the
/// escrow's ledger cleanly, the seller's part and the fee add up to the
/// price, and the fee is the rate rounded down.
pub proof fn law_the_buyer_pays_exactly_the_price(
    offer: Offer,
    trading_fee_bps: u16,
    buyer_ledger_exists: bool,
    escrow_ledger: HolderCheckpoint,
    payout_index: u128,
)
    requires
        trading_fee_bps <= BPS_DENOM,
        release_spec(escrow_ledger, payout_index, offer.amount) is Ok,
    ensures
        buy_offer_spec(offer, trading_fee_bps, buyer_ledger_exists, escrow_ledger, payout_index) matches Ok(p)
            && p.to_seller + p.fee
            == offer.price && p.fee == (offer.price * trading_fee_bps) / 10_000int && p.fee * 10_000 <= offer.price
            * trading_fee_bps,
{
    let x = offer.price * trading_fee_bps;
    assert(x <= offer.price * 10_000int) by (nonlinear_arith)
        requires
            trading_fee_bps <= 10_000,
            offer.price >= 0,
            x == offer.price * trading_fee_bps,
    ;
    assert(x <= u128::MAX) by (nonlinear_arith)
        requires
            x <= offer.price * 10_000int,
            offer.price <= u64::MAX,
    ;
    assert((x / 10_000int) <= offer.price) by (nonlinear_arith)
        requires
            x <= offer.price * 10_000int,
            x >= 0,
    ;
    assert((x / 10_000int) * 10_000 <= x) by (nonlinear_arith)
        requires
            x >= 0,
    ;
}

/// A buyer whose ledger is opened for the purchase starts owed nothing: the
/// transfer that brings the lot settles the buyer on the nothing held before
/// it, at a checkpoint already on today's index, so what accrued before the
/// bonds were the buyer's can never be claimed by the buyer.
pub proof fn law_a_new_buyer_starts_owed_nothing(
    issue_key: Key,
    issue: Issue,
    buyer: Key,
    bump: u8,
    escrow_ledger: HolderCheckpoint,
    escrow_left: u64,
    lot: u64,
)
    requires
        execute_spec(
            issue.payout_index,
            escrow_left,
            lot,
            lot,
            false,
            escrow_ledger,
            fresh_ledger(issue_key, issue, buyer, bump),
        ) is Ok,
    ensures
        ({
            let (_, ledger) = execute_spec(
                issue.payout_index,
                escrow_left,
                lot,
                lot,
                false,
                escrow_ledger,
                fresh_ledger(issue_key, issue, buyer, bump),
            ).unwrap();
            &&& ledger.accrued == 0
            &&& ledger.index_at_checkpoint == issue.payout_index
        }),
{
}

} // verus!
