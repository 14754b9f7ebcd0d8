//! The revenue source: registration and the interception of revenue.
//!
//! Registration connects interception: from that moment the source builds up
//! its history. Interception is the only way revenue enters the protocol. It
//! runs inside somebody else's fee-collecting instruction, so it is a filter,
//! not a gate: the state of our issue only decides whether the flow is split
//! or let through.
use vstd::prelude::*;
use crate::errors::ClubError;
use crate::math::{
    advance_index, advance_index_spec, per_unit_spec, split_intercept, split_intercept_spec, Split,
};
use crate::state::{Issue, IssueState, Key, RevenueSource};

verus! {

/// What one interception leaves behind: the source with its history grown,
/// the issue after the split (when one was presented), whether the flow was
/// split at all (the issue is in repayment), and how much moves from the
/// source vault into the repayment escrow.
#[derive(Clone, Copy, Debug, PartialEq, Eq)]
pub struct Interception {
    pub source: RevenueSource,
    pub issue: Option<Issue>,
    pub splits: bool,
    pub to_escrow: u64,
}

/// The source `register_source` writes: its history starts now and is empty,
/// and it backs no issue yet.
pub open spec fn fresh_source(issuer: Key, authority: Key, vault: Key, now: i64, seq: u64, bump: u8) -> RevenueSource {
    RevenueSource {
        issuer,
        authority,
        vault,
        first_seen_ts: now,
        total_observed: 0,
        observed_before_issue: 0,
        active_issue: None,
        seq,
        bump,
    }
}

/// The split of one inflow against an issue in repayment, over
/// `bond_supply` units: the issue afterwards and the amount for the escrow.
pub open spec fn repay_spec(issue: Issue, bond_supply: u64, amount: u64) -> Result<(Issue, u64), ClubError> {
    if issue.repaid_total > issue.obligation_total {
        Err(ClubError::MathOverflow)
    } else {
        let remaining = (issue.obligation_total - issue.repaid_total) as u128;
        match split_intercept_spec(amount as u128, issue.pledge_bps, remaining) {
            None => Err(ClubError::MathOverflow),
            Some(split) => if bond_supply == 0 {
                Err(ClubError::ZeroBondSupply)
            } else {
                match advance_index_spec(issue.payout_index, split.to_escrow, bond_supply as u128) {
                    None => Err(ClubError::MathOverflow),
                    Some(index) => {
                        let repaid = (issue.repaid_total + split.to_escrow) as u64;
                        Ok(
                            (
                                Issue {
                                    repaid_total: repaid,
                                    payout_index: index,
                                    state: if repaid == issue.obligation_total {
                                        IssueState::Repaid
                                    } else {
                                        issue.state
                                    },
                                    ..issue
                                },
                                split.to_escrow as u64,
                            ),
                        )
                    },
                }
            },
        }
    }
}

/// What `intercept` answers for an inflow of `amount`; `pledged` is the issue
/// presented with the bond supply read from its mint.
pub open spec fn intercept_spec(source: RevenueSource, pledged: Option<(Issue, u64)>, amount: u64) -> Result<
    Interception,
    ClubError,
> {
    if source.total_observed + amount > u64::MAX {
        Err(ClubError::MathOverflow)
    } else {
        let observed = RevenueSource {
            total_observed: (source.total_observed + amount) as u64,
            ..source
        };
        match pledged {
            None => Ok(Interception { source: observed, issue: None, splits: false, to_escrow: 0 }),
            Some((issue, supply)) => if issue.state != IssueState::Repaying {
                Ok(Interception { source: observed, issue: Some(issue), splits: false, to_escrow: 0 })
            } else {
                match repay_spec(issue, supply, amount) {
                    Err(e) => Err(e),
                    Ok((after, to_escrow)) => Ok(
                        Interception { source: observed, issue: Some(after), splits: true, to_escrow },
                    ),
                }
            },
        }
    }
}

/// Registers a revenue source. Its history starts at `now`, taken from the
/// chain clock, and `authority` is the key whose signature alone will
/// deliver revenue.
pub fn register_source(issuer: Key, authority: Key, vault: Key, now: i64, seq: u64, bump: u8) -> (r:
    RevenueSource)
    ensures
        r == fresh_source(issuer, authority, vault, now, seq, bump),
        r.issuer == issuer && r.authority == authority && r.vault == vault && r.seq == seq && r.bump
            == bump,
        r.first_seen_ts == now && r.total_observed == 0 && r.observed_before_issue == 0,
        r.active_issue is None,
{
    RevenueSource {
        issuer,
        authority,
        vault,
        first_seen_ts: now,
        total_observed: 0,
        observed_before_issue: 0,
        active_issue: None,
        seq,
        bump,
    }
}

fn repay(issue: &Issue, bond_supply: u64, amount: u64) -> (r: Result<(Issue, u64), ClubError>)
    ensures
        r == repay_spec(*issue, bond_supply, amount),
{
    let remaining = match issue.obligation_total.checked_sub(issue.repaid_total) {
        None => {
            return Err(ClubError::MathOverflow);
        },
        Some(r) => r as u128,
    };
    let split: Split = match split_intercept(amount as u128, issue.pledge_bps, remaining) {
        None => {
            return Err(ClubError::MathOverflow);
        },
        Some(s) => s,
    };
    // An index per unit is undefined without units.
    if bond_supply == 0 {
        return Err(ClubError::ZeroBondSupply);
    }
    let payout_index = match advance_index(issue.payout_index, split.to_escrow, bond_supply as u128) {
        None => {
            return Err(ClubError::MathOverflow);
        },
        Some(i) => i,
    };
    let repaid_total = issue.repaid_total + split.to_escrow as u64;
    let state = if repaid_total == issue.obligation_total {
        IssueState::Repaid
    } else {
        issue.state
    };
    Ok((Issue { repaid_total, payout_index, state, ..*issue }, split.to_escrow as u64))
}

/// Intercepts an inflow of revenue where it arises.
///
/// The history of the source always grows by the whole inflow. Without an
/// issue, or with one not in repayment, the flow only is observed; with one
/// in repayment the share goes to the escrow, never more than is still owed,
/// the payout index moves instead of paying each holder, and the issue closes
/// as repaid the moment the whole obligation is covered.
pub fn intercept(source: &RevenueSource, pledged: Option<(Issue, u64)>, amount: u64) -> (r: Result<
    Interception,
    ClubError,
>)
    ensures
        r == intercept_spec(*source, pledged, amount),
        r matches Ok(out) ==> {
            &&& out.source.total_observed == source.total_observed + amount
            &&& (out.splits <==> (pledged matches Some((i, _)) && i.state == IssueState::Repaying))
            &&& (out.splits ==> match pledged {
                Some((i, supply)) => supply > 0 && out.to_escrow == (if (amount * i.pledge_bps)
                    / 10_000int <= i.obligation_total - i.repaid_total {
                    (amount * i.pledge_bps) / 10_000int
                } else {
                    i.obligation_total - i.repaid_total
                }) && match out.issue {
                    Some(after) => after.payout_index == i.payout_index + (out.to_escrow
                        * 1_000_000_000_000int) / (supply as int),
                    None => false,
                },
                None => false,
            })
            &&& (!out.splits ==> out.to_escrow == 0)
            &&& out.to_escrow <= amount
            &&& match pledged {
                None => out.issue is None && out.to_escrow == 0,
                Some((issue, _)) => out.issue matches Some(after) && {
                    &&& after.same_terms(issue)
                    &&& after.raised == issue.raised
                    &&& after.repaid_total == issue.repaid_total + out.to_escrow
                    &&& (issue.well_formed() ==> after.well_formed())
                    &&& (issue.state != IssueState::Repaying ==> after == issue && out.to_escrow == 0)
                },
            }
        },
{
    let observed = match source.total_observed.checked_add(amount) {
        None => {
            return Err(ClubError::MathOverflow);
        },
        Some(o) => o,
    };
    let source_after = RevenueSource { total_observed: observed, ..*source };
    match pledged {
        None => Ok(Interception { source: source_after, issue: None, splits: false, to_escrow: 0 }),
        Some((issue, supply)) => {
            // Before the payout the flow is the issuer's; a repaid issue lets
            // every later fee through whole.
            if issue.state != IssueState::Repaying {
                return Ok(
                    Interception { source: source_after, issue: Some(issue), splits: false, to_escrow: 0 },
                );
            }
            match repay(&issue, supply, amount) {
                Err(e) => Err(e),
                Ok((after, to_escrow)) => Ok(
                    Interception { source: source_after, issue: Some(after), splits: true, to_escrow },
                ),
            }
        },
    }
}

/// The escrow never takes more than the obligation still owes: after any
/// number of inflows the repaid total stays within the obligation, and the
/// inflow that covers it closes the issue as repaid.
pub proof fn law_the_escrow_never_takes_more_than_is_owed(issue: Issue, supply: u64, amount: u64)
    requires
        issue.well_formed(),
        issue.state == IssueState::Repaying,
        repay_spec(issue, supply, amount) is Ok,
    ensures
        ({
            let (after, to_escrow) = repay_spec(issue, supply, amount).unwrap();
            &&& to_escrow <= issue.obligation_total - issue.repaid_total
            &&& after.repaid_total <= after.obligation_total
            &&& (after.repaid_total == after.obligation_total <==> after.state == IssueState::Repaid)
            &&& after.payout_index == issue.payout_index + per_unit_spec(to_escrow as u128, supply as u128)
        }),
{
}

/// A repaid issue lets every later inflow through untouched: nothing goes to
/// the escrow and the issue does not change.
pub proof fn law_a_repaid_issue_lets_everything_through(source: RevenueSource, issue: Issue, supply: u64, amount: u64)
    requires
        issue.state == IssueState::Repaid,
        source.total_observed + amount <= u64::MAX,
    ensures
        intercept_spec(source, Some((issue, supply)), amount) matches Ok(out) && out.to_escrow == 0
            && out.issue == Some(issue),
{
}

/// An issue in repayment splits every inflow it accepts: the share agreed
/// on, rounded down and capped by what is still owed, is transferred into the
/// repayment escrow, the repaid total grows by exactly that transfer, the
/// index moves by it spread over the bond supply, and the issue closes as
/// repaid exactly when the obligation is covered.
pub proof fn law_an_issue_in_repayment_splits_every_inflow(
    source: RevenueSource,
    issue: Issue,
    supply: u64,
    amount: u64,
)
    requires
        issue.state == IssueState::Repaying,
        intercept_spec(source, Some((issue, supply)), amount) is Ok,
    ensures
        ({
            let out = intercept_spec(source, Some((issue, supply)), amount).unwrap();
            let share = (amount * issue.pledge_bps) / 10_000int;
            let owed = issue.obligation_total - issue.repaid_total;
            &&& out.splits
            &&& out.to_escrow == (if share <= owed { share } else { owed })
            &&& out.source.total_observed == source.total_observed + amount
            &&& supply > 0
            &&& out.issue matches Some(after) && {
                &&& after.repaid_total == issue.repaid_total + out.to_escrow
                &&& after.payout_index == issue.payout_index + (out.to_escrow * 1_000_000_000_000int)
                    / (supply as int)
                &&& after.state == (if after.repaid_total == issue.obligation_total {
                    IssueState::Repaid
                } else {
                    IssueState::Repaying
                })
            }
        }),
{
}

/// Outside repayment nothing is split: without an issue, or with one that is
/// not repaying, the inflow is only observed, nothing moves into the escrow
/// and the issue is left as it was.
pub proof fn law_outside_repayment_the_flow_is_only_observed(
    source: RevenueSource,
    pledged: Option<(Issue, u64)>,
    amount: u64,
)
    requires
        !(pledged matches Some((i, _)) && i.state == IssueState::Repaying),
        source.total_observed + amount <= u64::MAX,
    ensures
        intercept_spec(source, pledged, amount) matches Ok(out) && {
            &&& !out.splits
            &&& out.to_escrow == 0
            &&& out.source.total_observed == source.total_observed + amount
            &&& out.issue == (match pledged {
                Some((i, _)) => Some(i),
                None => None,
            })
        },
{
}

} // verus!
