//! Creating an issue of bonds.
//!
//! This is where the terms become immutable: no instruction edits them later.
//! What is written into the issue afterwards is the movement of repayment
//! (`raised`, `repaid_total`, `payout_index`, `state`), and none of it is a
//! term.
//!
//! The face raised is handed to the issuer once, less the origination fee,
//! and that moment is when the obligation arises: the issue goes into
//! repayment.
use vstd::prelude::*;
use crate::errors::ClubError;
use crate::math::{obligation_total, obligation_total_spec, BPS_DENOM};
use crate::state::{Issue, IssueState, Key, ProtocolConfig, RevenueSource};

verus! {

/// A bond unit equals a unit of face in USDC, so the bond has no fractions.
pub const BOND_DECIMALS: u8 = 0;

/// The terms the issuer sets; fixed once written.
#[derive(Clone, Copy, Debug, PartialEq, Eq)]
pub struct IssueParams {
    /// The amount raised in USDC; also the whole bond supply.
    pub face: u64,
    /// Counted once, at creation.
    pub coupon_bps: u16,
    /// The intercepted share, at most the protocol cap.
    pub pledge_bps: u16,
    pub maturity_ts: i64,
    /// Contributions are accepted until this moment.
    pub subscription_end_ts: i64,
    /// The minimum contribution.
    pub min_lot: u64,
}

/// The addresses an issue is created with.
#[derive(Clone, Copy, Debug, PartialEq, Eq)]
pub struct IssueAccounts {
    pub issue: Key,
    pub source: Key,
    pub bond_mint: Key,
    pub escrow_vault: Key,
    pub subscription_vault: Key,
}

/// The first rule the terms break at the moment `now`, in checking order.
pub open spec fn issue_params_error(p: IssueParams, config: ProtocolConfig, now: i64) -> Option<
    ClubError,
> {
    if p.face == 0 {
        Some(ClubError::FaceAmountInvalid)
    } else if !(p.min_lot > 0 && p.min_lot <= p.face) {
        Some(ClubError::LotSizeInvalid)
    } else if p.face % p.min_lot != 0 {
        Some(ClubError::FaceAmountInvalid)
    } else if !(i64::MIN <= p.maturity_ts - now <= i64::MAX) {
        Some(ClubError::MathOverflow)
    } else if !(config.min_tenor_secs <= p.maturity_ts - now <= config.max_tenor_secs) {
        Some(ClubError::TermOutOfRange)
    } else if !(p.subscription_end_ts > now && p.subscription_end_ts < p.maturity_ts) {
        Some(ClubError::SubscriptionWindowInvalid)
    } else if p.pledge_bps > config.max_pledge_bps {
        Some(ClubError::PledgeAboveCap)
    } else {
        None
    }
}

/// The obligation of the terms as it is stored: face plus coupon, when it
/// fits in `u64`.
pub open spec fn stored_obligation(p: IssueParams) -> Result<u64, ClubError> {
    match obligation_total_spec(p.face as u128, p.coupon_bps) {
        Some(total) => if total <= u64::MAX {
            Ok(total as u64)
        } else {
            Err(ClubError::MathOverflow)
        },
        None => Err(ClubError::MathOverflow),
    }
}

/// The fresh issue the terms create: nothing raised, nothing repaid, index at
/// zero, subscribing.
pub open spec fn fresh_issue(p: IssueParams, accounts: IssueAccounts, obligation: u64, seq: u64, bump: u8) -> Issue {
    Issue {
        source: accounts.source,
        bond_mint: accounts.bond_mint,
        escrow_vault: accounts.escrow_vault,
        subscription_vault: accounts.subscription_vault,
        face: p.face,
        coupon_bps: p.coupon_bps,
        pledge_bps: p.pledge_bps,
        maturity_ts: p.maturity_ts,
        subscription_end_ts: p.subscription_end_ts,
        min_lot: p.min_lot,
        raised: 0,
        obligation_total: obligation,
        repaid_total: 0,
        payout_index: 0,
        state: IssueState::Subscribing,
        seq,
        bump,
    }
}

/// What `create_issue` answers: the new issue and the source it now occupies.
pub open spec fn create_issue_spec(
    config: ProtocolConfig,
    source: RevenueSource,
    accounts: IssueAccounts,
    seq: u64,
    bump: u8,
    p: IssueParams,
    now: i64,
) -> Result<(Issue, RevenueSource), ClubError> {
    match issue_params_error(p, config, now) {
        Some(e) => Err(e),
        None => if source.active_issue is Some {
            Err(ClubError::SourceAlreadyPledged)
        } else {
            match stored_obligation(p) {
                Err(e) => Err(e),
                Ok(obligation) => Ok(
                    (
                        fresh_issue(p, accounts, obligation, seq, bump),
                        RevenueSource {
                            active_issue: Some(accounts.issue),
                            observed_before_issue: source.total_observed,
                            ..source
                        },
                    ),
                ),
            }
        },
    }
}

/// What `withdraw_proceeds` answers: the issue in repayment, what goes to
/// the issuer and the origination fee for the treasury, at the rate the
/// protocol holds now.
pub open spec fn withdraw_proceeds_spec(issue: Issue, config: ProtocolConfig) -> Result<(Issue, u64, u64), ClubError> {
    if issue.state == IssueState::Repaying || issue.state == IssueState::PastDue || issue.state
        == IssueState::Repaid {
        Err(ClubError::ProceedsAlreadyWithdrawn)
    } else if issue.state != IssueState::Funded || issue.raised != issue.face {
        Err(ClubError::IssueNotFunded)
    } else {
        let fee = (issue.face * config.origination_fee_bps) / 10_000int;
        if fee > issue.face {
            Err(ClubError::MathOverflow)
        } else {
            Ok((Issue { state: IssueState::Repaying, ..issue }, (issue.face - fee) as u64, fee as u64))
        }
    }
}

/// Hands a fully raised issue's face to the issuer, less the origination fee
/// rounded down, and opens repayment. There is no separate "paid" flag: the
/// state itself closes the door, so the face goes out exactly once, and an
/// issue that was not raised in full gives the issuer nothing.
pub fn withdraw_proceeds(issue: &Issue, config: &ProtocolConfig) -> (r: Result<(Issue, u64, u64), ClubError>)
    ensures
        r == withdraw_proceeds_spec(*issue, *config),
        issue.state == IssueState::Repaying || issue.state == IssueState::PastDue || issue.state
            == IssueState::Repaid ==> r == Err::<(Issue, u64, u64), ClubError>(
            ClubError::ProceedsAlreadyWithdrawn,
        ),
        issue.state == IssueState::Funded && issue.raised == issue.face
            && config.origination_fee_bps <= 10_000 ==> r is Ok,
        r matches Ok((after, to_issuer, fee)) ==> {
            &&& issue.state == IssueState::Funded
            &&& issue.raised == issue.face
            &&& fee == (issue.face * config.origination_fee_bps) / 10_000int
            &&& to_issuer == issue.face - fee
            &&& after == Issue { state: IssueState::Repaying, ..*issue }
            &&& to_issuer + fee == issue.face
            &&& after.same_terms(*issue)
            &&& after.raised == issue.raised
            &&& after.repaid_total == issue.repaid_total
            &&& after.payout_index == issue.payout_index
            &&& (issue.well_formed() ==> after.well_formed())
        },
{
    if issue.state == IssueState::Repaying || issue.state == IssueState::PastDue || issue.state
        == IssueState::Repaid {
        return Err(ClubError::ProceedsAlreadyWithdrawn);
    }
    if issue.state != IssueState::Funded || issue.raised != issue.face {
        return Err(ClubError::IssueNotFunded);
    }
    let face = issue.face as u128;
    assert(face * config.origination_fee_bps <= u128::MAX) by (nonlinear_arith)
        requires
            face <= u64::MAX,
            config.origination_fee_bps <= u16::MAX,
    ;
    let fee = face * config.origination_fee_bps as u128 / BPS_DENOM;
    assert(config.origination_fee_bps <= 10_000 ==> fee <= face) by (nonlinear_arith)
        requires
            fee == (face * config.origination_fee_bps) / 10_000,
            face >= 0,
    ;
    if fee > face {
        return Err(ClubError::MathOverflow);
    }
    let fee = fee as u64;
    Ok((Issue { state: IssueState::Repaying, ..*issue }, issue.face - fee, fee))
}


impl IssueParams {
    /// Checks the terms against the protocol at the moment `now`.
    pub fn validate(&self, config: &ProtocolConfig, now: i64) -> (r: Result<(), ClubError>)
        ensures
            r == (match issue_params_error(*self, *config, now) {
                Some(e) => Err(e),
                None => Ok(()),
            }),
            r is Ok <==> (self.face > 0 && 0 < self.min_lot <= self.face && self.face % self.min_lot == 0
                && config.min_tenor_secs <= self.maturity_ts - now <= config.max_tenor_secs && now
                < self.subscription_end_ts < self.maturity_ts && self.pledge_bps <= config.max_pledge_bps),
    {
        // The face must split into whole lots, or the last contribution could
        // never reach `raised == face`.
        if self.face == 0 {
            return Err(ClubError::FaceAmountInvalid);
        }
        if !(self.min_lot > 0 && self.min_lot <= self.face) {
            return Err(ClubError::LotSizeInvalid);
        }
        if self.face % self.min_lot != 0 {
            return Err(ClubError::FaceAmountInvalid);
        }
        // The term counts from now, not from the end of the subscription.
        let tenor = match self.maturity_ts.checked_sub(now) {
            None => {
                return Err(ClubError::MathOverflow);
            },
            Some(t) => t,
        };
        if !(tenor >= config.min_tenor_secs && tenor <= config.max_tenor_secs) {
            return Err(ClubError::TermOutOfRange);
        }
        if !(self.subscription_end_ts > now && self.subscription_end_ts < self.maturity_ts) {
            return Err(ClubError::SubscriptionWindowInvalid);
        }
        if self.pledge_bps > config.max_pledge_bps {
            return Err(ClubError::PledgeAboveCap);
        }
        Ok(())
    }

    /// Face plus coupon, fixed forever; computed in `u128`, stored in `u64`.
    pub fn obligation_total(&self) -> (r: Result<u64, ClubError>)
        ensures
            r == stored_obligation(*self),
            r matches Ok(total) ==> total == self.face + (self.face * self.coupon_bps) / 10_000int,
            r is Ok <==> self.face + (self.face * self.coupon_bps) / 10_000int <= u64::MAX,
    {
        match obligation_total(self.face as u128, self.coupon_bps) {
            None => Err(ClubError::MathOverflow),
            Some(total) => if total <= u64::MAX as u128 {
                Ok(total as u64)
            } else {
                Err(ClubError::MathOverflow)
            },
        }
    }
}

/// Creates an issue under a registered source: fixes the terms, occupies the
/// source and snapshots the revenue observed so far.
pub fn create_issue(
    config: &ProtocolConfig,
    source: &RevenueSource,
    accounts: IssueAccounts,
    seq: u64,
    bump: u8,
    params: IssueParams,
    now: i64,
) -> (r: Result<(Issue, RevenueSource), ClubError>)
    ensures
        r == create_issue_spec(*config, *source, accounts, seq, bump, params, now),
        r matches Ok((issue, _)) ==> issue.well_formed(),
        r is Ok <==> (params.face > 0 && 0 < params.min_lot <= params.face && params.face % params.min_lot
            == 0 && config.min_tenor_secs <= params.maturity_ts - now <= config.max_tenor_secs && now
            < params.subscription_end_ts < params.maturity_ts && params.pledge_bps
            <= config.max_pledge_bps && source.active_issue is None && params.face + (params.face
            * params.coupon_bps) / 10_000int <= u64::MAX),
        r matches Ok((issue, occupied)) ==> {
            &&& issue.face == params.face
            &&& issue.coupon_bps == params.coupon_bps
            &&& issue.pledge_bps == params.pledge_bps
            &&& issue.maturity_ts == params.maturity_ts
            &&& issue.subscription_end_ts == params.subscription_end_ts
            &&& issue.min_lot == params.min_lot
            &&& issue.obligation_total == params.face + (params.face * params.coupon_bps) / 10_000int
            &&& issue.raised == 0
            &&& issue.repaid_total == 0
            &&& issue.payout_index == 0
            &&& issue.state == IssueState::Subscribing
            &&& issue.source == accounts.source
            &&& issue.bond_mint == accounts.bond_mint
            &&& issue.escrow_vault == accounts.escrow_vault
            &&& issue.subscription_vault == accounts.subscription_vault
            &&& issue.seq == seq
            &&& issue.bump == bump
            &&& occupied.active_issue == Some(accounts.issue)
            &&& occupied.observed_before_issue == source.total_observed
            &&& occupied == RevenueSource {
                active_issue: Some(accounts.issue),
                observed_before_issue: source.total_observed,
                ..*source
            }
        },
{
    match params.validate(config, now) {
        Err(e) => {
            return Err(e);
        },
        Ok(()) => {},
    }
    // Two issues on one flow would compete for the same money.
    if source.active_issue.is_some() {
        return Err(ClubError::SourceAlreadyPledged);
    }
    let obligation = match params.obligation_total() {
        Err(e) => {
            return Err(e);
        },
        Ok(o) => o,
    };
    proof {
        assert(obligation >= params.face);
    }
    let issue = Issue {
        source: accounts.source,
        bond_mint: accounts.bond_mint,
        escrow_vault: accounts.escrow_vault,
        subscription_vault: accounts.subscription_vault,
        face: params.face,
        coupon_bps: params.coupon_bps,
        pledge_bps: params.pledge_bps,
        maturity_ts: params.maturity_ts,
        subscription_end_ts: params.subscription_end_ts,
        min_lot: params.min_lot,
        raised: 0,
        obligation_total: obligation,
        repaid_total: 0,
        payout_index: 0,
        state: IssueState::Subscribing,
        seq,
        bump,
    };
    let occupied = RevenueSource {
        active_issue: Some(accounts.issue),
        observed_before_issue: source.total_observed,
        ..*source
    };
    Ok((issue, occupied))
}

} // verus!
