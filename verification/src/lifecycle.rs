//! What holds of an issue across every instruction that writes it.
use vstd::prelude::*;
use crate::invest::{refund_spec, subscribe_spec};
use crate::issue::withdraw_proceeds_spec;
use crate::source::intercept_spec;
use crate::state::{Issue, IssueState, ProtocolConfig, RevenueSource};

verus! {

/// Position of a state in the life cycle of an issue.
pub open spec fn stage(state: IssueState) -> int {
    match state {
        IssueState::Subscribing => 0,
        IssueState::Funded => 1,
        IssueState::Repaying => 2,
        IssueState::PastDue => 3,
        IssueState::Repaid => 4,
        IssueState::Failed => 5,
    }
}

/// The change an instruction made to an issue is allowed: the terms stay,
/// the life cycle only moves forward, and a well-formed issue stays
/// well-formed.
pub open spec fn allowed_step(before: Issue, after: Issue) -> bool {
    &&& after.same_terms(before)
    &&& stage(before.state) <= stage(after.state)
    &&& (before.well_formed() ==> after.well_formed())
}

/// No instruction rewrites the terms of an issue or moves it back in its
/// life cycle, and none breaks what a well-formed issue keeps: subscription,
/// refund, the payout of the proceeds and interception alike, whatever their
/// inputs.
pub proof fn law_every_step_keeps_the_terms_and_moves_forward(
    issue: Issue,
    source: RevenueSource,
    now: i64,
    amount: u64,
    bond_balance: u64,
    bond_supply: u64,
    config: ProtocolConfig,
)
    ensures
        withdraw_proceeds_spec(issue, config) matches Ok((after, _, _)) ==> allowed_step(issue, after),
        subscribe_spec(issue, now, amount) matches Ok((after, _)) ==> allowed_step(issue, after),
        refund_spec(issue, now, bond_balance) matches Ok((after, _)) ==> allowed_step(issue, after),
        intercept_spec(source, Some((issue, bond_supply)), amount) matches Ok(out) ==> out.issue
            matches Some(after) && allowed_step(issue, after),
{
}

/// An issue that was fully raised never becomes refundable, and an issue that
/// failed never takes another contribution.
pub proof fn law_funded_and_failed_are_exclusive(issue: Issue, now: i64, amount: u64, bond_balance: u64)
    ensures
        issue.raised == issue.face ==> refund_spec(issue, now, bond_balance) is Err,
        issue.state == IssueState::Failed ==> subscribe_spec(issue, now, amount) is Err,
{
}

} // verus!
