//! Repayment arithmetic. Everything is checked `u128` arithmetic rounded down.
//!
//! Every function answers `None` where the computation would overflow, divide
//! by zero or read a checkpoint from the future: the instruction that calls it
//! turns that into a named error at its own edge.
use vstd::prelude::*;
use vstd::arithmetic::div_mod::{lemma_div_is_ordered, lemma_div_multiples_vanish, lemma_fundamental_div_mod};
use vstd::arithmetic::mul::{lemma_mul_inequality, lemma_mul_is_commutative, lemma_mul_is_distributive_add, lemma_mul_nonnegative};

verus! {

/// Scale of the cumulative payout index per bond unit.
pub const SCALE: u128 = 1_000_000_000_000;

/// Basis points in a whole.
pub const BPS_DENOM: u128 = 10_000;

/// How one inflow was split: what went to the repayment escrow and what
/// stayed with the issuer.
#[derive(Debug, Clone, Copy, PartialEq, Eq, Structural)]
pub struct Split {
    pub to_escrow: u128,
    pub to_issuer: u128,
}

/// `x * bps / BPS_DENOM` rounded down, or `None` where `x * bps` does not fit
/// in `u128`.
pub open spec fn bps_of_spec(x: u128, bps: u16) -> Option<u128> {
    if x * bps > u128::MAX {
        None
    } else {
        Some(((x * bps) / (BPS_DENOM as int)) as u128)
    }
}

/// The whole obligation of an issue: face plus the coupon rounded down.
pub open spec fn obligation_total_spec(face: u128, coupon_bps: u16) -> Option<u128> {
    match bps_of_spec(face, coupon_bps) {
        None => None,
        Some(coupon) => if face + coupon > u128::MAX {
            None
        } else {
            Some((face + coupon) as u128)
        },
    }
}

/// The agreed share of one inflow, before the remaining obligation caps it.
pub open spec fn pledged_share_spec(amount: u128, pledge_bps: u16) -> Option<u128> {
    bps_of_spec(amount, pledge_bps)
}

/// The share capped by what the obligation still owes; the rest stays with
/// the issuer. `None` where the share cannot be computed or exceeds the inflow.
pub open spec fn split_intercept_spec(amount: u128, pledge_bps: u16, remaining: u128) -> Option<Split> {
    match pledged_share_spec(amount, pledge_bps) {
        None => None,
        Some(share) => {
            let to_escrow = if share <= remaining { share } else { remaining };
            if to_escrow > amount {
                None
            } else {
                Some(Split { to_escrow, to_issuer: (amount - to_escrow) as u128 })
            }
        },
    }
}

/// What one inflow adds to the index of every bond unit, rounded down.
pub open spec fn per_unit_spec(amount: u128, bond_supply: u128) -> int {
    (amount * SCALE) / (bond_supply as int)
}

/// The index after one inflow of `amount` over `bond_supply` units.
pub open spec fn advance_index_spec(index: u128, amount: u128, bond_supply: u128) -> Option<u128> {
    if bond_supply == 0 || amount * SCALE > u128::MAX || index + per_unit_spec(amount, bond_supply)
        > u128::MAX {
        None
    } else {
        Some((index + per_unit_spec(amount, bond_supply)) as u128)
    }
}

/// What a balance earned between a checkpoint and the index, rounded down.
pub open spec fn earned_spec(index: u128, checkpoint: u128, balance: u128) -> int {
    ((index - checkpoint) * balance) / (SCALE as int)
}

/// What a holder may take now: the earned share plus what was already accrued.
pub open spec fn claimable_spec(index: u128, checkpoint: u128, balance: u128, accrued: u128) -> Option<
    u128,
> {
    if checkpoint > index || (index - checkpoint) * balance > u128::MAX || earned_spec(
        index,
        checkpoint,
        balance,
    ) + accrued > u128::MAX {
        None
    } else {
        Some((earned_spec(index, checkpoint, balance) + accrued) as u128)
    }
}

fn bps_of(x: u128, bps: u16) -> (r: Option<u128>)
    ensures
        r == bps_of_spec(x, bps),
{
    match x.checked_mul(bps as u128) {
        None => None,
        Some(scaled) => scaled.checked_div(BPS_DENOM),
    }
}

/// Full obligation of an issue: face plus coupon, fixed once at creation.
pub fn obligation_total(face: u128, coupon_bps: u16) -> (r: Option<u128>)
    ensures
        r == obligation_total_spec(face, coupon_bps),
        r matches Some(total) ==> total == face + (face * coupon_bps) / 10_000int,
        face * coupon_bps <= u128::MAX && face + (face * coupon_bps) / 10_000int <= u128::MAX
            ==> r is Some,
{
    match bps_of(face, coupon_bps) {
        None => None,
        Some(coupon) => face.checked_add(coupon),
    }
}

/// Agreed share of an inflow, before the remaining obligation is applied.
pub fn pledged_share(amount: u128, pledge_bps: u16) -> (r: Option<u128>)
    ensures
        r == pledged_share_spec(amount, pledge_bps),
        r matches Some(share) ==> share == (amount * pledge_bps) / 10_000int,
        amount * pledge_bps <= u128::MAX ==> r is Some,
{
    bps_of(amount, pledge_bps)
}

/// Splits an inflow at the moment it arises: the share goes to the escrow,
/// but never more than the obligation still owes; the rest stays with the
/// issuer. With nothing owed the issuer keeps everything.
pub fn split_intercept(amount: u128, pledge_bps: u16, remaining: u128) -> (r: Option<Split>)
    ensures
        r == split_intercept_spec(amount, pledge_bps, remaining),
        r matches Some(s) ==> s.to_escrow + s.to_issuer == amount && s.to_escrow <= remaining,
        r matches Some(s) ==> s.to_escrow == (if (amount * pledge_bps) / 10_000int <= remaining {
            (amount * pledge_bps) / 10_000int
        } else {
            remaining as int
        }),
        amount * pledge_bps <= u128::MAX && pledge_bps <= 10_000 ==> r is Some,
{
    let share = match pledged_share(amount, pledge_bps) {
        None => {
            return None;
        },
        Some(share) => share,
    };
    let to_escrow = if share <= remaining {
        share
    } else {
        remaining
    };
    proof {
        if amount * pledge_bps <= u128::MAX && pledge_bps <= 10_000 {
            law_a_split_within_the_whole_always_succeeds(amount, pledge_bps, remaining);
        }
    }
    match amount.checked_sub(to_escrow) {
        None => None,
        Some(to_issuer) => Some(Split { to_escrow, to_issuer }),
    }
}

/// Advances the cumulative payout index per bond unit. The cost does not
/// depend on the number of holders; rounding down leaves the dust in escrow.
pub fn advance_index(index: u128, amount: u128, bond_supply: u128) -> (r: Option<u128>)
    ensures
        r == advance_index_spec(index, amount, bond_supply),
        r matches Some(next) ==> bond_supply > 0 && next == index + (amount * 1_000_000_000_000int)
            / (bond_supply as int),
        bond_supply == 0 ==> r is None,
        bond_supply > 0 && amount * 1_000_000_000_000int <= u128::MAX && index + (amount
            * 1_000_000_000_000int) / (bond_supply as int) <= u128::MAX ==> r is Some,
{
    if bond_supply == 0 {
        return None;
    }
    let per_unit = match amount.checked_mul(SCALE) {
        None => {
            return None;
        },
        Some(scaled) => match scaled.checked_div(bond_supply) {
            None => {
                return None;
            },
            Some(p) => p,
        },
    };
    index.checked_add(per_unit)
}

/// What a holder may take now: the index delta since the checkpoint times the
/// balance, plus what the hook already accrued on transfers.
pub fn claimable(index: u128, checkpoint: u128, balance: u128, accrued: u128) -> (r: Option<u128>)
    ensures
        r == claimable_spec(index, checkpoint, balance, accrued),
        r matches Some(owed) ==> checkpoint <= index && owed == ((index - checkpoint) * balance)
            / 1_000_000_000_000int + accrued,
        checkpoint > index ==> r is None,
        checkpoint <= index && (index - checkpoint) * balance <= u128::MAX && ((index - checkpoint)
            * balance) / 1_000_000_000_000int + accrued <= u128::MAX ==> r is Some,
{
    let delta = match index.checked_sub(checkpoint) {
        None => {
            return None;
        },
        Some(d) => d,
    };
    let earned = match delta.checked_mul(balance) {
        None => {
            return None;
        },
        Some(product) => match product.checked_div(SCALE) {
            None => {
                return None;
            },
            Some(e) => e,
        },
    };
    earned.checked_add(accrued)
}

/// The sum of a sequence of amounts.
pub open spec fn seq_sum(s: Seq<u128>) -> int
    decreases s.len(),
{
    if s.len() == 0 {
        0
    } else {
        seq_sum(s.drop_last()) + s.last()
    }
}

/// The index after every inflow of `amounts` in turn, over `bond_supply`
/// units, when each advance succeeds.
pub open spec fn advance_all(index: u128, amounts: Seq<u128>, bond_supply: u128) -> Option<u128>
    decreases amounts.len(),
{
    if amounts.len() == 0 {
        Some(index)
    } else {
        match advance_all(index, amounts.drop_last(), bond_supply) {
            None => None,
            Some(before) => advance_index_spec(before, amounts.last(), bond_supply),
        }
    }
}

/// What the index gains per unit over all of `amounts`.
pub open spec fn index_gain(amounts: Seq<u128>, bond_supply: u128) -> int
    decreases amounts.len(),
{
    if amounts.len() == 0 {
        0
    } else {
        index_gain(amounts.drop_last(), bond_supply) + per_unit_spec(amounts.last(), bond_supply)
    }
}

/// What all `balances` earned together between a checkpoint and the index.
pub open spec fn total_earned(index: u128, checkpoint: u128, balances: Seq<u128>) -> int
    decreases balances.len(),
{
    if balances.len() == 0 {
        0
    } else {
        total_earned(index, checkpoint, balances.drop_last()) + earned_spec(
            index,
            checkpoint,
            balances.last(),
        )
    }
}

proof fn lemma_advance_all_gain(index: u128, amounts: Seq<u128>, bond_supply: u128)
    requires
        advance_all(index, amounts, bond_supply) is Some,
    ensures
        advance_all(index, amounts, bond_supply).unwrap() == index + index_gain(amounts, bond_supply),
        amounts.len() > 0 ==> bond_supply > 0,
    decreases amounts.len(),
{
    if amounts.len() > 0 {
        lemma_advance_all_gain(index, amounts.drop_last(), bond_supply);
    }
}

proof fn lemma_gain_bounded(amounts: Seq<u128>, bond_supply: u128)
    requires
        bond_supply > 0,
    ensures
        0 <= index_gain(amounts, bond_supply),
        index_gain(amounts, bond_supply) * bond_supply <= SCALE * seq_sum(amounts),
    decreases amounts.len(),
{
    if amounts.len() > 0 {
        let rest = amounts.drop_last();
        let a = amounts.last();
        lemma_gain_bounded(rest, bond_supply);
        let x = a * SCALE;
        let q = x / (bond_supply as int);
        lemma_fundamental_div_mod(x, bond_supply as int);
        lemma_mul_nonnegative(a as int, SCALE as int);
        assert(0 <= q) by {
            lemma_div_is_ordered(0, x, bond_supply as int);
        }
        assert(q * bond_supply <= x) by {
            lemma_mul_is_commutative(q, bond_supply as int);
        }
        let g = index_gain(rest, bond_supply);
        assert((g + q) * bond_supply == g * bond_supply + q * bond_supply) by {
            lemma_mul_is_commutative(g + q, bond_supply as int);
            lemma_mul_is_distributive_add(bond_supply as int, g, q);
            lemma_mul_is_commutative(g, bond_supply as int);
            lemma_mul_is_commutative(q, bond_supply as int);
        }
        assert(SCALE * seq_sum(amounts) == SCALE * seq_sum(rest) + a * SCALE) by {
            lemma_mul_is_distributive_add(SCALE as int, seq_sum(rest), a as int);
            lemma_mul_is_commutative(SCALE as int, a as int);
        }
    }
}

proof fn lemma_floor_sum(x: int, y: int)
    requires
        0 <= x,
        0 <= y,
    ensures
        x / (SCALE as int) + y / (SCALE as int) <= (x + y) / (SCALE as int),
{
    let d = SCALE as int;
    let q1 = x / d;
    let q2 = y / d;
    lemma_fundamental_div_mod(x, d);
    lemma_fundamental_div_mod(y, d);
    assert(d * (q1 + q2) <= x + y) by {
        lemma_mul_is_distributive_add(d, q1, q2);
    }
    lemma_div_is_ordered(d * (q1 + q2), x + y, d);
    lemma_div_multiples_vanish(q1 + q2, d);
}

proof fn lemma_total_earned_bounded(index: u128, checkpoint: u128, balances: Seq<u128>)
    requires
        checkpoint <= index,
    ensures
        0 <= seq_sum(balances),
        total_earned(index, checkpoint, balances) <= ((index - checkpoint) * seq_sum(balances)) / (
        SCALE as int),
    decreases balances.len(),
{
    if balances.len() > 0 {
        let rest = balances.drop_last();
        let b = balances.last();
        let d = index - checkpoint;
        lemma_total_earned_bounded(index, checkpoint, rest);
        lemma_mul_nonnegative(d, seq_sum(rest));
        lemma_mul_nonnegative(d, b as int);
        lemma_floor_sum(d * seq_sum(rest), d * b);
        lemma_mul_is_distributive_add(d, seq_sum(rest), b as int);
    }
}

/// Holders never take more than came in: whatever inflows advanced the index
/// from a checkpoint, holders whose balances add up to at most the bond
/// supply are owed together at most the sum of those inflows. Rounding
/// always works against them; the dust stays in the escrow.
pub proof fn law_holders_never_take_more_than_came_in(
    checkpoint: u128,
    amounts: Seq<u128>,
    bond_supply: u128,
    balances: Seq<u128>,
)
    requires
        advance_all(checkpoint, amounts, bond_supply) is Some,
        seq_sum(balances) <= bond_supply,
    ensures
        total_earned(advance_all(checkpoint, amounts, bond_supply).unwrap(), checkpoint, balances)
            <= seq_sum(amounts),
{
    lemma_advance_all_gain(checkpoint, amounts, bond_supply);
    let index = advance_all(checkpoint, amounts, bond_supply).unwrap();
    if amounts.len() > 0 {
        lemma_gain_bounded(amounts, bond_supply);
    }
    lemma_total_earned_bounded(index, checkpoint, balances);
    if amounts.len() == 0 {
        assert(index == checkpoint);
        assert(((index - checkpoint) * seq_sum(balances)) == 0);
        assert(0int / (SCALE as int) == 0);
        lemma_seq_sum_nonneg(amounts);
    } else {
        lemma_gain_bounded(amounts, bond_supply);
        lemma_seq_sum_nonneg(amounts);
        let g = index_gain(amounts, bond_supply);
        assert(g * seq_sum(balances) <= g * bond_supply) by {
            lemma_mul_inequality(seq_sum(balances), bond_supply as int, g);
            lemma_mul_is_commutative(seq_sum(balances), g);
            lemma_mul_is_commutative(bond_supply as int, g);
        }
        assert(g * seq_sum(balances) <= SCALE * seq_sum(amounts));
        lemma_div_is_ordered(g * seq_sum(balances), SCALE * seq_sum(amounts), SCALE as int);
        lemma_div_multiples_vanish(seq_sum(amounts), SCALE as int);
    }
}

proof fn lemma_seq_sum_nonneg(s: Seq<u128>)
    ensures
        0 <= seq_sum(s),
    decreases s.len(),
{
    if s.len() > 0 {
        lemma_seq_sum_nonneg(s.drop_last());
    }
}

/// A transfer never creates money: what two parts of a balance earn
/// separately is at most what the whole balance earns, and at most one unit
/// less.
pub proof fn law_splitting_a_balance_creates_no_money(index: u128, checkpoint: u128, a: u128, b: u128)
    requires
        checkpoint <= index,
    ensures
        earned_spec(index, checkpoint, a) + earned_spec(index, checkpoint, b) <= earned_spec(
            index,
            checkpoint,
            (a + b) as u128,
        ) || a + b > u128::MAX,
        a + b <= u128::MAX ==> earned_spec(index, checkpoint, (a + b) as u128) <= earned_spec(
            index,
            checkpoint,
            a,
        ) + earned_spec(index, checkpoint, b) + 1,
{
    if a + b <= u128::MAX {
        let d = index - checkpoint;
        let s = SCALE as int;
        lemma_mul_nonnegative(d, a as int);
        lemma_mul_nonnegative(d, b as int);
        lemma_floor_sum(d * a, d * b);
        lemma_mul_is_distributive_add(d, a as int, b as int);
        let x = d * a;
        let y = d * b;
        lemma_fundamental_div_mod(x, s);
        lemma_fundamental_div_mod(y, s);
        lemma_fundamental_div_mod(x + y, s);
        let q1 = x / s;
        let q2 = y / s;
        let q = (x + y) / s;
        assert(s * q <= s * (q1 + q2 + 1)) by {
            lemma_mul_is_distributive_add(s, q1, q2);
            lemma_mul_is_distributive_add(s, q1 + q2, 1);
        }
        assert(q <= q1 + q2 + 1) by (nonlinear_arith)
            requires
                s * q <= s * (q1 + q2 + 1),
                s > 0,
        ;
    }
}

/// An inflow always splits when the agreed share is at most the whole and
/// can be computed: the escrow's part never passes what is owed nor the
/// agreed share, and the two parts add up to the inflow.
pub proof fn law_a_split_within_the_whole_always_succeeds(amount: u128, pledge_bps: u16, remaining: u128)
    requires
        pledge_bps <= BPS_DENOM,
        amount * pledge_bps <= u128::MAX,
    ensures
        split_intercept_spec(amount, pledge_bps, remaining) matches Some(s) && s.to_escrow + s.to_issuer
            == amount && s.to_escrow <= remaining && s.to_escrow <= (amount * pledge_bps) / 10_000int,
{
    let x = amount * pledge_bps;
    assert(x <= amount * 10_000int) by (nonlinear_arith)
        requires
            pledge_bps <= 10_000,
            amount >= 0,
            x == amount * pledge_bps,
    ;
    assert(x / 10_000int <= amount) by (nonlinear_arith)
        requires
            x <= amount * 10_000int,
            x >= 0,
    ;
}

/// Right after a claim nothing new is owed: at its own checkpoint a holder
/// may take exactly what the hook already accrued, whatever the balance.
pub proof fn law_a_claim_at_the_checkpoint_is_only_the_accrued(index: u128, balance: u128, accrued: u128)
    ensures
        claimable_spec(index, index, balance, accrued) == Some(accrued),
{
    assert(earned_spec(index, index, balance) == 0);
}

} // verus!
