//! Named errors of the core program.
//!
//! The declaration order fixes the numeric codes: they count up from
//! [`ERROR_CODE_OFFSET`], so variants may only ever be appended.
use vstd::prelude::*;

verus! {

/// The first code of a program's own errors.
pub const ERROR_CODE_OFFSET: u32 = 6000;

/// Every refusal of the core program, each guarding one requirement.
#[derive(Clone, Copy, Debug, PartialEq, Eq, Structural)]
pub enum ClubError {
    /// Protocol parameters are changed only by the administrative authority.
    Unauthorized,
    /// The origination fee is 1-2%; the trading fee is at most the whole price.
    FeeOutOfRange,
    /// The cap on the intercepted share cannot allow more than the whole flow.
    PledgeCapOutOfRange,
    /// The protocol's term range lies within 30-180 days.
    TermRangeOutOfBounds,
    /// A zero history threshold would admit every source.
    HistoryThresholdInvalid,
    /// The term of this issue is outside the protocol's range.
    TermOutOfRange,
    /// The intercepted share is above the protocol cap.
    PledgeAboveCap,
    /// At most one active issue per revenue source.
    SourceAlreadyPledged,
    /// The source has not yet accumulated the required revenue history.
    InsufficientRevenueHistory,
    /// The face is set by the issuer and must split into whole lots.
    FaceAmountInvalid,
    /// The minimum lot is above zero and at most the face.
    LotSizeInvalid,
    /// The subscription window ends after creation and before maturity.
    SubscriptionWindowInvalid,
    /// Subscriptions are accepted only while the issue is subscribing.
    IssueNotSubscribing,
    /// The subscription window has closed.
    SubscriptionWindowClosed,
    /// The contribution is below the minimum lot.
    BelowMinimumLot,
    /// Nothing of the face is left to subscribe.
    IssueFullySubscribed,
    /// No ledger is open for this wallet on this issue; the account constraints refuse this before any handler runs.
    PositionNotOpen,
    /// The face is available to the issuer only on a full raise.
    IssueNotFunded,
    /// The face is handed to the issuer exactly once.
    ProceedsAlreadyWithdrawn,
    /// Refunds exist only for an undersubscribed issue.
    IssueNotFailed,
    /// The subscription window has not closed yet.
    SubscriptionWindowStillOpen,
    /// Nothing to refund.
    NothingToRefund,
    /// Revenue is accepted only from the signer recorded at registration.
    SourceAuthorityMismatch,
    /// The source does not back the issue presented.
    SourceNotPledged,
    /// The split applies while the issue is in repayment.
    IssueNotRepaying,
    /// The obligation is already fully repaid.
    ObligationAlreadyRepaid,
    /// The issue has not reached maturity yet.
    IssueNotMatured,
    /// Nothing to claim.
    NothingToClaim,
    /// The ledger belongs to another issue.
    IssueMismatch,
    /// The hook was invoked outside a token transfer.
    NotTransferring,
    /// The recipient has no open ledger for this issue.
    RecipientPositionMissing,
    /// An offer names a positive amount and a positive price.
    OfferTermsInvalid,
    /// The offer was already bought or cancelled.
    OfferNotActive,
    /// Insufficient bond balance.
    InsufficientBondBalance,
    /// Arithmetic overflow.
    MathOverflow,
    /// An index per unit is undefined without units.
    ZeroBondSupply,
    /// A checkpoint ahead of the index is a corrupted ledger, not zero.
    CheckpointAheadOfIndex,
    /// The pledged share exceeds the inflow.
    PledgeExceedsInflow,
    /// Instruction is not implemented yet.
    NotImplemented,
}

/// Position of a variant in the declaration.
pub open spec fn club_error_index(e: ClubError) -> nat {
    match e {
        ClubError::Unauthorized => 0,
        ClubError::FeeOutOfRange => 1,
        ClubError::PledgeCapOutOfRange => 2,
        ClubError::TermRangeOutOfBounds => 3,
        ClubError::HistoryThresholdInvalid => 4,
        ClubError::TermOutOfRange => 5,
        ClubError::PledgeAboveCap => 6,
        ClubError::SourceAlreadyPledged => 7,
        ClubError::InsufficientRevenueHistory => 8,
        ClubError::FaceAmountInvalid => 9,
        ClubError::LotSizeInvalid => 10,
        ClubError::SubscriptionWindowInvalid => 11,
        ClubError::IssueNotSubscribing => 12,
        ClubError::SubscriptionWindowClosed => 13,
        ClubError::BelowMinimumLot => 14,
        ClubError::IssueFullySubscribed => 15,
        ClubError::PositionNotOpen => 16,
        ClubError::IssueNotFunded => 17,
        ClubError::ProceedsAlreadyWithdrawn => 18,
        ClubError::IssueNotFailed => 19,
        ClubError::SubscriptionWindowStillOpen => 20,
        ClubError::NothingToRefund => 21,
        ClubError::SourceAuthorityMismatch => 22,
        ClubError::SourceNotPledged => 23,
        ClubError::IssueNotRepaying => 24,
        ClubError::ObligationAlreadyRepaid => 25,
        ClubError::IssueNotMatured => 26,
        ClubError::NothingToClaim => 27,
        ClubError::IssueMismatch => 28,
        ClubError::NotTransferring => 29,
        ClubError::RecipientPositionMissing => 30,
        ClubError::OfferTermsInvalid => 31,
        ClubError::OfferNotActive => 32,
        ClubError::InsufficientBondBalance => 33,
        ClubError::MathOverflow => 34,
        ClubError::ZeroBondSupply => 35,
        ClubError::CheckpointAheadOfIndex => 36,
        ClubError::PledgeExceedsInflow => 37,
        ClubError::NotImplemented => 38,
    }
}

/// The message a client sees beside the code.
pub open spec fn club_error_message(e: ClubError) -> Seq<char> {
    match e {
        ClubError::Unauthorized => "Only the protocol authority may change protocol parameters"@,
        ClubError::FeeOutOfRange => "Fee rate is outside the range the protocol allows"@,
        ClubError::PledgeCapOutOfRange => "Revenue share cap must be above zero and at most 100%"@,
        ClubError::TermRangeOutOfBounds => "Maturity range must be non-empty and within 30 to 180 days"@,
        ClubError::HistoryThresholdInvalid => "Revenue history threshold must be above zero"@,
        ClubError::TermOutOfRange => "Issue term is outside the range the protocol allows"@,
        ClubError::PledgeAboveCap => "Revenue share is above the protocol cap"@,
        ClubError::SourceAlreadyPledged => "This revenue source already backs an active issue"@,
        ClubError::InsufficientRevenueHistory => "Revenue source has not accumulated enough history yet"@,
        ClubError::FaceAmountInvalid => "Face amount must be above zero and a whole number of lots"@,
        ClubError::LotSizeInvalid => "Minimum lot must be above zero and at most the face amount"@,
        ClubError::SubscriptionWindowInvalid => "Subscription window must end after it starts and before maturity"@,
        ClubError::IssueNotSubscribing => "Issue is not accepting subscriptions"@,
        ClubError::SubscriptionWindowClosed => "Subscription window has closed"@,
        ClubError::BelowMinimumLot => "Contribution is below the minimum lot"@,
        ClubError::IssueFullySubscribed => "Issue is fully subscribed"@,
        ClubError::PositionNotOpen => "No position is open for this wallet on this issue"@,
        ClubError::IssueNotFunded => "Issue has not been fully funded"@,
        ClubError::ProceedsAlreadyWithdrawn => "Proceeds have already been withdrawn"@,
        ClubError::IssueNotFailed => "Issue is not marked undersubscribed"@,
        ClubError::SubscriptionWindowStillOpen => "Subscription window has not closed yet"@,
        ClubError::NothingToRefund => "Nothing to refund"@,
        ClubError::SourceAuthorityMismatch => "Caller did not prove it is the registered revenue source authority"@,
        ClubError::SourceNotPledged => "Revenue source does not back any active issue"@,
        ClubError::IssueNotRepaying => "Issue is not in repayment"@,
        ClubError::ObligationAlreadyRepaid => "Obligation is already fully repaid"@,
        ClubError::IssueNotMatured => "Issue has not reached maturity yet"@,
        ClubError::NothingToClaim => "Nothing to claim"@,
        ClubError::IssueMismatch => "Account belongs to a different issue"@,
        ClubError::NotTransferring => "Hook was invoked outside a token transfer"@,
        ClubError::RecipientPositionMissing => "Recipient has no open position for this issue"@,
        ClubError::OfferTermsInvalid => "Offer amount and price must both be above zero"@,
        ClubError::OfferNotActive => "Offer is no longer active"@,
        ClubError::InsufficientBondBalance => "Insufficient bond balance"@,
        ClubError::MathOverflow => "Arithmetic overflow"@,
        ClubError::ZeroBondSupply => "Bond supply is zero"@,
        ClubError::CheckpointAheadOfIndex => "Checkpoint is ahead of the payout index"@,
        ClubError::PledgeExceedsInflow => "Pledged share exceeds the inflow"@,
        ClubError::NotImplemented => "Instruction is not implemented yet"@,
    }
}

impl ClubError {
    /// The number a client sees: the offset plus the declaration position.
    pub fn code(&self) -> (r: u32)
        ensures
            r == ERROR_CODE_OFFSET + club_error_index(*self),
    {
        match self {
            ClubError::Unauthorized => ERROR_CODE_OFFSET + 0,
            ClubError::FeeOutOfRange => ERROR_CODE_OFFSET + 1,
            ClubError::PledgeCapOutOfRange => ERROR_CODE_OFFSET + 2,
            ClubError::TermRangeOutOfBounds => ERROR_CODE_OFFSET + 3,
            ClubError::HistoryThresholdInvalid => ERROR_CODE_OFFSET + 4,
            ClubError::TermOutOfRange => ERROR_CODE_OFFSET + 5,
            ClubError::PledgeAboveCap => ERROR_CODE_OFFSET + 6,
            ClubError::SourceAlreadyPledged => ERROR_CODE_OFFSET + 7,
            ClubError::InsufficientRevenueHistory => ERROR_CODE_OFFSET + 8,
            ClubError::FaceAmountInvalid => ERROR_CODE_OFFSET + 9,
            ClubError::LotSizeInvalid => ERROR_CODE_OFFSET + 10,
            ClubError::SubscriptionWindowInvalid => ERROR_CODE_OFFSET + 11,
            ClubError::IssueNotSubscribing => ERROR_CODE_OFFSET + 12,
            ClubError::SubscriptionWindowClosed => ERROR_CODE_OFFSET + 13,
            ClubError::BelowMinimumLot => ERROR_CODE_OFFSET + 14,
            ClubError::IssueFullySubscribed => ERROR_CODE_OFFSET + 15,
            ClubError::PositionNotOpen => ERROR_CODE_OFFSET + 16,
            ClubError::IssueNotFunded => ERROR_CODE_OFFSET + 17,
            ClubError::ProceedsAlreadyWithdrawn => ERROR_CODE_OFFSET + 18,
            ClubError::IssueNotFailed => ERROR_CODE_OFFSET + 19,
            ClubError::SubscriptionWindowStillOpen => ERROR_CODE_OFFSET + 20,
            ClubError::NothingToRefund => ERROR_CODE_OFFSET + 21,
            ClubError::SourceAuthorityMismatch => ERROR_CODE_OFFSET + 22,
            ClubError::SourceNotPledged => ERROR_CODE_OFFSET + 23,
            ClubError::IssueNotRepaying => ERROR_CODE_OFFSET + 24,
            ClubError::ObligationAlreadyRepaid => ERROR_CODE_OFFSET + 25,
            ClubError::IssueNotMatured => ERROR_CODE_OFFSET + 26,
            ClubError::NothingToClaim => ERROR_CODE_OFFSET + 27,
            ClubError::IssueMismatch => ERROR_CODE_OFFSET + 28,
            ClubError::NotTransferring => ERROR_CODE_OFFSET + 29,
            ClubError::RecipientPositionMissing => ERROR_CODE_OFFSET + 30,
            ClubError::OfferTermsInvalid => ERROR_CODE_OFFSET + 31,
            ClubError::OfferNotActive => ERROR_CODE_OFFSET + 32,
            ClubError::InsufficientBondBalance => ERROR_CODE_OFFSET + 33,
            ClubError::MathOverflow => ERROR_CODE_OFFSET + 34,
            ClubError::ZeroBondSupply => ERROR_CODE_OFFSET + 35,
            ClubError::CheckpointAheadOfIndex => ERROR_CODE_OFFSET + 36,
            ClubError::PledgeExceedsInflow => ERROR_CODE_OFFSET + 37,
            ClubError::NotImplemented => ERROR_CODE_OFFSET + 38,
        }
    }

    /// The message attached to the code.
    pub fn message(&self) -> (r: &'static str)
        ensures
            r@ == club_error_message(*self),
    {
        match self {
            ClubError::Unauthorized => "Only the protocol authority may change protocol parameters",
            ClubError::FeeOutOfRange => "Fee rate is outside the range the protocol allows",
            ClubError::PledgeCapOutOfRange => "Revenue share cap must be above zero and at most 100%",
            ClubError::TermRangeOutOfBounds => "Maturity range must be non-empty and within 30 to 180 days",
            ClubError::HistoryThresholdInvalid => "Revenue history threshold must be above zero",
            ClubError::TermOutOfRange => "Issue term is outside the range the protocol allows",
            ClubError::PledgeAboveCap => "Revenue share is above the protocol cap",
            ClubError::SourceAlreadyPledged => "This revenue source already backs an active issue",
            ClubError::InsufficientRevenueHistory => "Revenue source has not accumulated enough history yet",
            ClubError::FaceAmountInvalid => "Face amount must be above zero and a whole number of lots",
            ClubError::LotSizeInvalid => "Minimum lot must be above zero and at most the face amount",
            ClubError::SubscriptionWindowInvalid => "Subscription window must end after it starts and before maturity",
            ClubError::IssueNotSubscribing => "Issue is not accepting subscriptions",
            ClubError::SubscriptionWindowClosed => "Subscription window has closed",
            ClubError::BelowMinimumLot => "Contribution is below the minimum lot",
            ClubError::IssueFullySubscribed => "Issue is fully subscribed",
            ClubError::PositionNotOpen => "No position is open for this wallet on this issue",
            ClubError::IssueNotFunded => "Issue has not been fully funded",
            ClubError::ProceedsAlreadyWithdrawn => "Proceeds have already been withdrawn",
            ClubError::IssueNotFailed => "Issue is not marked undersubscribed",
            ClubError::SubscriptionWindowStillOpen => "Subscription window has not closed yet",
            ClubError::NothingToRefund => "Nothing to refund",
            ClubError::SourceAuthorityMismatch => "Caller did not prove it is the registered revenue source authority",
            ClubError::SourceNotPledged => "Revenue source does not back any active issue",
            ClubError::IssueNotRepaying => "Issue is not in repayment",
            ClubError::ObligationAlreadyRepaid => "Obligation is already fully repaid",
            ClubError::IssueNotMatured => "Issue has not reached maturity yet",
            ClubError::NothingToClaim => "Nothing to claim",
            ClubError::IssueMismatch => "Account belongs to a different issue",
            ClubError::NotTransferring => "Hook was invoked outside a token transfer",
            ClubError::RecipientPositionMissing => "Recipient has no open position for this issue",
            ClubError::OfferTermsInvalid => "Offer amount and price must both be above zero",
            ClubError::OfferNotActive => "Offer is no longer active",
            ClubError::InsufficientBondBalance => "Insufficient bond balance",
            ClubError::MathOverflow => "Arithmetic overflow",
            ClubError::ZeroBondSupply => "Bond supply is zero",
            ClubError::CheckpointAheadOfIndex => "Checkpoint is ahead of the payout index",
            ClubError::PledgeExceedsInflow => "Pledged share exceeds the inflow",
            ClubError::NotImplemented => "Instruction is not implemented yet",
        }
    }
}

} // verus!
