//! An investor's position: opening the ledger, subscribing, and the refund of
//! an undersubscribed issue.
//!
//! The ledger is a pass, not a record kept just in case: the hook resolves
//! the ledgers of both sides of a transfer, and without one the transfer is
//! refused as a whole. Subscription prints the bond in the same transaction
//! as the contribution; a refund burns it and returns the contribution. A
//! claim pays a holder what the index and the hook owe them and starts their
//! count again from today's index.
use vstd::prelude::*;
use crate::errors::ClubError;
use crate::math::{claimable, claimable_spec};
use crate::state::{HolderCheckpoint, Issue, IssueState, Key};

verus! {

/// The ledger `open_position` writes: it starts from today's index, so that
/// nothing paid out before the holder arrived is owed to them.
pub open spec fn fresh_ledger(issue_key: Key, issue: Issue, owner: Key, bump: u8) -> HolderCheckpoint {
    HolderCheckpoint {
        issue: issue_key,
        owner,
        index_at_checkpoint: issue.payout_index,
        accrued: 0,
        claimed_total: 0,
        bump,
    }
}

/// What `subscribe` answers: the issue after the contribution and the amount
/// accepted, which is also the bond printed.
pub open spec fn subscribe_spec(issue: Issue, now: i64, amount: u64) -> Result<(Issue, u64), ClubError> {
    if issue.state != IssueState::Subscribing {
        Err(ClubError::IssueNotSubscribing)
    } else if now >= issue.subscription_end_ts {
        Err(ClubError::SubscriptionWindowClosed)
    } else if issue.raised > issue.face {
        Err(ClubError::MathOverflow)
    } else if issue.face - issue.raised == 0 {
        Err(ClubError::IssueFullySubscribed)
    } else if amount < issue.min_lot {
        Err(ClubError::BelowMinimumLot)
    } else {
        let remaining = issue.face - issue.raised;
        let accepted = if amount <= remaining { amount as int } else { remaining };
        let raised = (issue.raised + accepted) as u64;
        Ok(
            (
                Issue {
                    raised,
                    state: if raised == issue.face { IssueState::Funded } else { issue.state },
                    ..issue
                },
                accepted as u64,
            ),
        )
    }
}

/// What `refund` answers: the issue after the refund and the amount burned
/// and returned, which is the whole bond balance of the investor.
pub open spec fn refund_spec(issue: Issue, now: i64, bond_balance: u64) -> Result<(Issue, u64), ClubError> {
    if !(issue.state == IssueState::Subscribing || issue.state == IssueState::Failed) {
        Err(ClubError::IssueNotFailed)
    } else if now < issue.subscription_end_ts {
        Err(ClubError::SubscriptionWindowStillOpen)
    } else if issue.raised >= issue.face {
        Err(ClubError::IssueNotFailed)
    } else if bond_balance == 0 {
        Err(ClubError::NothingToRefund)
    } else if bond_balance > issue.raised {
        Err(ClubError::MathOverflow)
    } else {
        Ok(
            (
                Issue {
                    raised: (issue.raised - bond_balance) as u64,
                    state: IssueState::Failed,
                    ..issue
                },
                bond_balance,
            ),
        )
    }
}

/// Opens the ledger of `owner` on an issue. Anyone may pay for it; every
/// field is written by the program.
pub fn open_position(issue_key: Key, issue: &Issue, owner: Key, bump: u8) -> (r: HolderCheckpoint)
    ensures
        r == fresh_ledger(issue_key, *issue, owner, bump),
        r.issue == issue_key && r.owner == owner && r.bump == bump,
        r.index_at_checkpoint == issue.payout_index && r.accrued == 0 && r.claimed_total == 0,
{
    HolderCheckpoint {
        issue: issue_key,
        owner,
        index_at_checkpoint: issue.payout_index,
        accrued: 0,
        claimed_total: 0,
        bump,
    }
}

/// A contribution to an issue. `amount` is what the investor offers: the
/// minimum lot is measured on the offer, and `min(amount, what is left)` is
/// accepted, so the tail of the face smaller than a lot can still be taken.
/// A full raise closes the issue as funded.
pub fn subscribe(issue: &Issue, now: i64, amount: u64) -> (r: Result<(Issue, u64), ClubError>)
    ensures
        r == subscribe_spec(*issue, now, amount),
        amount < issue.min_lot ==> r is Err,
        issue.state == IssueState::Subscribing && now < issue.subscription_end_ts && issue.raised
            < issue.face && amount < issue.min_lot ==> r == Err::<(Issue, u64), ClubError>(
            ClubError::BelowMinimumLot,
        ),
        issue.state == IssueState::Subscribing && now < issue.subscription_end_ts && issue.raised
            < issue.face && amount >= issue.min_lot ==> r is Ok,
        r matches Ok((after, accepted)) ==> {
            &&& issue.state == IssueState::Subscribing
            &&& now < issue.subscription_end_ts
            &&& amount >= issue.min_lot
            &&& accepted == (if amount <= issue.face - issue.raised {
                amount as int
            } else {
                issue.face - issue.raised
            })
            &&& after.state == (if after.raised == issue.face {
                IssueState::Funded
            } else {
                IssueState::Subscribing
            })
            &&& accepted <= amount
            &&& after.raised == issue.raised + accepted
            &&& after.same_terms(*issue)
            &&& after.payout_index == issue.payout_index
            &&& after.repaid_total == issue.repaid_total
            &&& (issue.well_formed() ==> after.well_formed() && accepted > 0)
        },
{
    if issue.state != IssueState::Subscribing {
        return Err(ClubError::IssueNotSubscribing);
    }
    // The window is open before `subscription_end_ts`, not at it: in that
    // very second a refund may already be asked for.
    if now >= issue.subscription_end_ts {
        return Err(ClubError::SubscriptionWindowClosed);
    }
    let remaining = match issue.face.checked_sub(issue.raised) {
        None => {
            return Err(ClubError::MathOverflow);
        },
        Some(r) => r,
    };
    if remaining == 0 {
        return Err(ClubError::IssueFullySubscribed);
    }
    if amount < issue.min_lot {
        return Err(ClubError::BelowMinimumLot);
    }
    let accepted = if amount <= remaining {
        amount
    } else {
        remaining
    };
    let raised = issue.raised + accepted;
    let state = if raised == issue.face {
        IssueState::Funded
    } else {
        issue.state
    };
    Ok((Issue { raised, state, ..*issue }, accepted))
}

/// The refund of a contribution to an undersubscribed issue: the whole bond
/// balance is burned and as much USDC goes back, with no fee withheld. The
/// first refund after the window closes is what marks the issue failed.
pub fn refund(issue: &Issue, now: i64, bond_balance: u64) -> (r: Result<(Issue, u64), ClubError>)
    ensures
        r == refund_spec(*issue, now, bond_balance),
        (issue.state == IssueState::Subscribing || issue.state == IssueState::Failed) && now
            >= issue.subscription_end_ts && issue.raised < issue.face && 0 < bond_balance
            <= issue.raised ==> r is Ok,
        r matches Ok((after, amount)) ==> {
            &&& (issue.state == IssueState::Subscribing || issue.state == IssueState::Failed)
            &&& now >= issue.subscription_end_ts
            &&& issue.raised < issue.face
            &&& amount > 0
            &&& amount == bond_balance
            &&& after.raised + amount == issue.raised
            &&& after.state == IssueState::Failed
            &&& after.same_terms(*issue)
            &&& (issue.well_formed() ==> after.well_formed())
        },
{
    if !(issue.state == IssueState::Subscribing || issue.state == IssueState::Failed) {
        return Err(ClubError::IssueNotFailed);
    }
    // Closed from `subscription_end_ts`, not after it.
    if now < issue.subscription_end_ts {
        return Err(ClubError::SubscriptionWindowStillOpen);
    }
    // A fully raised issue gives no refunds even before the window ends.
    if issue.raised >= issue.face {
        return Err(ClubError::IssueNotFailed);
    }
    if bond_balance == 0 {
        return Err(ClubError::NothingToRefund);
    }
    let raised = match issue.raised.checked_sub(bond_balance) {
        None => {
            return Err(ClubError::MathOverflow);
        },
        Some(r) => r,
    };
    Ok((Issue { raised, state: IssueState::Failed, ..*issue }, bond_balance))
}

/// What `claim` answers for a holder with `balance` bond units: the ledger
/// afterwards and the amount paid out of the repayment escrow.
pub open spec fn claim_spec(holder: HolderCheckpoint, index: u128, balance: u64) -> Result<(HolderCheckpoint, u64), ClubError> {
    if holder.index_at_checkpoint > index {
        Err(ClubError::CheckpointAheadOfIndex)
    } else {
        match claimable_spec(index, holder.index_at_checkpoint, balance as u128, holder.accrued as u128) {
            None => Err(ClubError::MathOverflow),
            Some(owed) => if owed == 0 {
                Err(ClubError::NothingToClaim)
            } else if owed > u64::MAX || holder.claimed_total + owed > u64::MAX {
                Err(ClubError::MathOverflow)
            } else {
                Ok(
                    (
                        HolderCheckpoint {
                            index_at_checkpoint: index,
                            accrued: 0,
                            claimed_total: (holder.claimed_total + owed) as u64,
                            ..holder
                        },
                        owed as u64,
                    ),
                )
            },
        }
    }
}

/// Pays a holder what is owed now: the index delta since the checkpoint times
/// the bond balance, plus what the hook accrued on transfers. The checkpoint
/// moves to the index and `accrued` empties, so the same money cannot be
/// taken twice; a claim of nothing is refused by name. A refusal leaves the
/// ledger untouched.
pub fn claim(holder: &mut HolderCheckpoint, index: u128, balance: u64) -> (r: Result<u64, ClubError>)
    ensures
        match claim_spec(*old(holder), index, balance) {
            Ok((after, paid)) => r == Ok::<u64, ClubError>(paid) && *final(holder) == after,
            Err(e) => r == Err::<u64, ClubError>(e) && *final(holder) == *old(holder),
        },
        ({
            let cp = old(holder).index_at_checkpoint;
            let owed = old(holder).accrued + ((index - cp) * balance) / 1_000_000_000_000int;
            &&& r matches Ok(paid) ==> {
                &&& paid == owed
                &&& paid > 0
                &&& final(holder).accrued == 0
                &&& final(holder).index_at_checkpoint == index
                &&& final(holder).claimed_total == old(holder).claimed_total + paid
            }
            &&& (cp <= index && (index - cp) * balance <= u128::MAX && 0 < owed && owed <= u64::MAX
                && old(holder).claimed_total + owed <= u64::MAX ==> r == Ok::<u64, ClubError>(
                owed as u64,
            ))
            &&& (cp <= index && (index - cp) * balance <= u128::MAX && owed == 0 ==> r == Err::<
                u64,
                ClubError,
            >(ClubError::NothingToClaim))
        }),
{
    if holder.index_at_checkpoint > index {
        return Err(ClubError::CheckpointAheadOfIndex);
    }
    let owed = match claimable(index, holder.index_at_checkpoint, balance as u128, holder.accrued as u128) {
        None => {
            return Err(ClubError::MathOverflow);
        },
        Some(o) => o,
    };
    if owed == 0 {
        return Err(ClubError::NothingToClaim);
    }
    if owed > u64::MAX as u128 {
        return Err(ClubError::MathOverflow);
    }
    let paid = owed as u64;
    let claimed_total = match holder.claimed_total.checked_add(paid) {
        None => {
            return Err(ClubError::MathOverflow);
        },
        Some(t) => t,
    };
    holder.index_at_checkpoint = index;
    holder.accrued = 0;
    holder.claimed_total = claimed_total;
    Ok(paid)
}

/// A claim right after a claim finds nothing: the first leaves the ledger on
/// the index with nothing accrued, so the second is refused as long as the
/// index has not moved.
pub proof fn law_nothing_is_claimed_twice(holder: HolderCheckpoint, index: u128, balance: u64)
    requires
        claim_spec(holder, index, balance) is Ok,
    ensures
        ({
            let (after, paid) = claim_spec(holder, index, balance).unwrap();
            &&& paid > 0
            &&& after.claimed_total == holder.claimed_total + paid
            &&& claim_spec(after, index, balance) == Err::<(HolderCheckpoint, u64), ClubError>(
                ClubError::NothingToClaim,
            )
        }),
{
}

/// A freshly opened ledger owes its holder nothing, whatever balance arrives
/// on it, as long as the index has not moved.
pub proof fn law_a_fresh_ledger_owes_nothing(issue_key: Key, issue: Issue, owner: Key, bump: u8, balance: u128)
    ensures
        ({
            let ledger = fresh_ledger(issue_key, issue, owner, bump);
            claimable_spec(issue.payout_index, ledger.index_at_checkpoint, balance, ledger.accrued as u128)
                == Some(0u128)
        }),
{
}

/// Subscription never raises more than the face, and an issue closes as
/// funded exactly when the last unit of face is taken.
pub proof fn law_subscription_never_exceeds_the_face(issue: Issue, now: i64, amount: u64)
    requires
        issue.well_formed(),
        subscribe_spec(issue, now, amount) is Ok,
    ensures
        ({
            let (after, accepted) = subscribe_spec(issue, now, amount).unwrap();
            &&& after.raised <= after.face
            &&& (after.state == IssueState::Funded <==> after.raised == after.face)
            &&& accepted == (if amount <= issue.face - issue.raised { amount as int } else { issue.face - issue.raised })
        }),
{
}

/// Once the window has closed on an undersubscribed issue, every refund asks
/// the same: the first one marks it failed, and a later one finds it failed
/// and works the same way.
pub proof fn law_a_later_refund_works_the_same(issue: Issue, now: i64, first: u64, second: u64)
    requires
        refund_spec(issue, now, first) is Ok,
    ensures
        ({
            let after = refund_spec(issue, now, first).unwrap().0;
            &&& after.state == IssueState::Failed
            &&& (second > 0 && second <= after.raised ==> refund_spec(after, now, second) == Ok::<(Issue, u64), ClubError>(
                (Issue { raised: (after.raised - second) as u64, ..after }, second),
            ))
        }),
{
}

/// A claim pays whatever is owed, and only what is owed: the index delta
/// since the checkpoint times the bond balance, rounded down, plus what the
/// hook accrued. It succeeds whenever that is positive and fits, also at the
/// checkpoint itself, where it is exactly the accrued amount whatever the
/// balance; it is refused by name only when nothing is owed.
pub proof fn law_a_claim_pays_exactly_what_is_owed(holder: HolderCheckpoint, index: u128, balance: u64)
    requires
        holder.index_at_checkpoint <= index,
        (index - holder.index_at_checkpoint) * balance <= u128::MAX,
    ensures
        ({
            let owed = holder.accrued + ((index - holder.index_at_checkpoint) * balance)
                / 1_000_000_000_000int;
            &&& owed == 0 ==> claim_spec(holder, index, balance) == Err::<(HolderCheckpoint, u64), ClubError>(
                ClubError::NothingToClaim,
            )
            &&& (0 < owed && owed <= u64::MAX && holder.claimed_total + owed <= u64::MAX)
                ==> (claim_spec(holder, index, balance) matches Ok((after, paid)) && paid == owed
                && after.accrued == 0 && after.index_at_checkpoint == index && after.claimed_total
                == holder.claimed_total + owed)
            &&& (holder.index_at_checkpoint == index && holder.accrued > 0 && holder.claimed_total
                + holder.accrued <= u64::MAX) ==> (claim_spec(holder, index, balance) matches Ok((_, paid))
                && paid == holder.accrued)
        }),
{
    assert((index - holder.index_at_checkpoint) * balance >= 0) by (nonlinear_arith)
        requires
            index - holder.index_at_checkpoint >= 0,
            balance >= 0,
    ;
    if holder.index_at_checkpoint == index {
        assert((index - holder.index_at_checkpoint) * balance == 0);
    }
}

/// The minimum lot is measured on every offer, whoever subscribed before: a
/// contribution below it is never accepted, and an open issue with face left
/// accepts any contribution of at least a lot, up to what is left.
pub proof fn law_the_minimum_lot_holds_for_every_contribution(issue: Issue, now: i64, amount: u64)
    ensures
        amount < issue.min_lot ==> subscribe_spec(issue, now, amount) is Err,
        (issue.state == IssueState::Subscribing && now < issue.subscription_end_ts && issue.raised
            < issue.face && amount < issue.min_lot) ==> subscribe_spec(issue, now, amount) == Err::<
            (Issue, u64),
            ClubError,
        >(ClubError::BelowMinimumLot),
        (issue.state == IssueState::Subscribing && now < issue.subscription_end_ts && issue.raised
            < issue.face && amount >= issue.min_lot) ==> (subscribe_spec(issue, now, amount) matches Ok(
            (after, accepted),
        ) && accepted == (if amount <= issue.face - issue.raised {
            amount as int
        } else {
            issue.face - issue.raised
        }) && after.raised == issue.raised + accepted),
{
}

} // verus!
