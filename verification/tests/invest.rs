use daddys_club::errors::ClubError;
use daddys_club::invest::{open_position, refund, subscribe};
use daddys_club::math::claimable;
use daddys_club::state::{Issue, IssueState, Key};

const NOW: i64 = 1_800_000_000;
const DAY: i64 = 86_400;
const LOTS: u64 = 5_000_000;
const INDEX_SO_FAR: u128 = 7_000_000_000;

fn key(byte: u8) -> Key {
    Key { bytes: [byte; 32] }
}

fn stored_issue(state: IssueState, payout_index: u128) -> Issue {
    Issue {
        source: key(51),
        bond_mint: key(23),
        escrow_vault: key(34),
        subscription_vault: key(33),
        face: 250_000_000_000,
        coupon_bps: 950,
        pledge_bps: 1_200,
        maturity_ts: NOW + 90 * DAY,
        subscription_end_ts: NOW + 7 * DAY,
        min_lot: 1_000_000,
        raised: 0,
        obligation_total: 273_750_000_000,
        repaid_total: 0,
        payout_index,
        state,
        seq: 0,
        bump: 253,
    }
}

fn subscribing_with(raised: u64) -> Issue {
    Issue { raised, ..stored_issue(IssueState::Subscribing, 0) }
}

fn undersubscribed(state: IssueState, raised: u64) -> Issue {
    Issue { raised, ..stored_issue(state, 0) }
}

fn closed_at() -> i64 {
    stored_issue(IssueState::Subscribing, 0).subscription_end_ts
}

// ---- the ledger ----

#[test]
fn open_position_records_whose_ledger_it_is_and_on_which_issue() {
    let holder = open_position(key(50), &stored_issue(IssueState::Subscribing, INDEX_SO_FAR), key(13), 249);

    assert_eq!(holder.issue, key(50));
    assert_eq!(holder.owner, key(13));
    assert_eq!(holder.bump, 249);
}

#[test]
fn a_fresh_ledger_starts_from_todays_index_and_owes_nothing() {
    let holder = open_position(key(50), &stored_issue(IssueState::Subscribing, INDEX_SO_FAR), key(13), 249);

    assert_eq!(holder.index_at_checkpoint, INDEX_SO_FAR);
    assert_eq!(holder.accrued, 0);
    assert_eq!(holder.claimed_total, 0);
    assert_eq!(
        claimable(INDEX_SO_FAR, holder.index_at_checkpoint, 1_000_000_000, holder.accrued as u128),
        Some(0)
    );
}

#[test]
fn a_repaid_issue_still_accepts_a_new_ledger() {
    let holder = open_position(key(50), &stored_issue(IssueState::Repaid, INDEX_SO_FAR), key(14), 248);
    assert_eq!(holder.index_at_checkpoint, INDEX_SO_FAR);
}

// ---- subscription ----

#[test]
fn subscribe_moves_usdc_into_the_escrow_and_mints_the_bond_at_once() {
    let (issue, accepted) = subscribe(&subscribing_with(0), NOW, LOTS).unwrap();

    assert_eq!(accepted, LOTS);
    assert_eq!(issue.raised, LOTS);
    assert_eq!(issue.state, IssueState::Subscribing, "the issue closed before raising the face");
}

#[test]
fn a_contribution_adds_to_what_others_already_raised() {
    let already = 40_000_000;
    let (issue, accepted) = subscribe(&subscribing_with(already), NOW, LOTS).unwrap();

    assert_eq!(issue.raised, already + LOTS);
    assert_eq!(accepted, LOTS, "the investor got somebody else's contribution");
}

#[test]
fn the_last_contribution_is_accepted_only_up_to_what_is_left() {
    let tail = 400_000;
    let terms = subscribing_with(stored_issue(IssueState::Subscribing, 0).face - tail);

    assert!(tail < terms.min_lot, "the tail must be smaller than a lot");

    let (issue, accepted) = subscribe(&terms, NOW, LOTS).unwrap();

    assert_eq!(accepted, tail, "more was taken than accepted");
    assert_eq!(issue.raised, issue.face);
}

#[test]
fn a_full_raise_closes_the_issue_as_funded() {
    let face = stored_issue(IssueState::Subscribing, 0).face;

    let (short, _) = subscribe(&subscribing_with(face - LOTS - 1), NOW, LOTS).unwrap();
    assert_eq!(short.state, IssueState::Subscribing);
    assert_eq!(short.raised, face - 1);

    let (full, _) = subscribe(&subscribing_with(face - LOTS), NOW, LOTS).unwrap();
    assert_eq!(full.state, IssueState::Funded);
    assert_eq!(full.raised, face);
}

#[test]
fn a_contribution_below_the_minimum_lot_is_refused() {
    let min_lot = stored_issue(IssueState::Subscribing, 0).min_lot;

    assert_eq!(subscribe(&subscribing_with(0), NOW, min_lot - 1), Err(ClubError::BelowMinimumLot));

    let (_, accepted) = subscribe(&subscribing_with(0), NOW, min_lot).unwrap();
    assert_eq!(accepted, min_lot);
}

#[test]
fn a_contribution_after_the_window_closed_is_refused() {
    let closes_at = closed_at();

    assert!(subscribe(&subscribing_with(0), closes_at - 1, LOTS).is_ok());

    for now in [closes_at, closes_at + 1] {
        assert_eq!(
            subscribe(&subscribing_with(0), now, LOTS),
            Err(ClubError::SubscriptionWindowClosed)
        );
    }
}

#[test]
fn an_issue_that_is_not_subscribing_takes_no_contributions() {
    for state in [
        IssueState::Funded,
        IssueState::Repaying,
        IssueState::PastDue,
        IssueState::Repaid,
        IssueState::Failed,
    ] {
        assert_eq!(
            subscribe(&Issue { raised: 0, ..stored_issue(state, 0) }, NOW, LOTS),
            Err(ClubError::IssueNotSubscribing)
        );
    }
}

#[test]
fn a_fully_subscribed_issue_refuses_another_contribution() {
    let face = stored_issue(IssueState::Subscribing, 0).face;
    assert_eq!(
        subscribe(&subscribing_with(face), NOW, LOTS),
        Err(ClubError::IssueFullySubscribed)
    );
}

#[test]
fn an_issue_raised_above_its_face_refuses_by_overflow() {
    let face = stored_issue(IssueState::Subscribing, 0).face;
    assert_eq!(subscribe(&subscribing_with(face + 1), NOW, LOTS), Err(ClubError::MathOverflow));
}

// ---- refunds ----

#[test]
fn refund_burns_the_bond_and_returns_the_contribution() {
    let (issue, amount) = refund(&undersubscribed(IssueState::Subscribing, LOTS), closed_at() + DAY, LOTS).unwrap();

    assert_eq!(amount, LOTS);
    assert_eq!(issue.raised, 0, "what was raised parted from the vault");
}

#[test]
fn no_origination_fee_is_withheld_from_a_refund() {
    let (_, amount) = refund(&undersubscribed(IssueState::Subscribing, LOTS), closed_at() + DAY, LOTS).unwrap();
    assert_eq!(amount, LOTS, "something was withheld from the refund");
}

#[test]
fn the_first_refund_is_what_marks_the_issue_undersubscribed() {
    let (issue, _) = refund(&undersubscribed(IssueState::Subscribing, LOTS), closed_at() + DAY, LOTS).unwrap();
    assert_eq!(issue.state, IssueState::Failed);
}

#[test]
fn a_later_refund_finds_the_issue_already_failed_and_works_the_same() {
    let others = 40_000_000;
    let (issue, amount) =
        refund(&undersubscribed(IssueState::Failed, others + LOTS), closed_at() + DAY, LOTS).unwrap();

    assert_eq!(amount, LOTS);
    assert_eq!(issue.state, IssueState::Failed);
    assert_eq!(issue.raised, others);
}

#[test]
fn a_refund_takes_only_the_share_of_the_one_who_asks() {
    let others = 2 * LOTS;
    let (issue, amount) =
        refund(&undersubscribed(IssueState::Failed, others + LOTS), closed_at() + DAY, LOTS).unwrap();

    assert_eq!(amount, LOTS);
    assert_eq!(issue.raised, others);
}

#[test]
fn a_refund_before_the_window_closed_is_refused() {
    let closes_at = closed_at();

    for now in [closes_at - 1, closes_at - DAY] {
        assert_eq!(
            refund(&undersubscribed(IssueState::Subscribing, LOTS), now, LOTS),
            Err(ClubError::SubscriptionWindowStillOpen)
        );
    }
    for now in [closes_at, closes_at + 1] {
        assert!(refund(&undersubscribed(IssueState::Subscribing, LOTS), now, LOTS).is_ok());
    }
}

#[test]
fn a_fully_raised_issue_is_not_undersubscribed() {
    let face = stored_issue(IssueState::Subscribing, 0).face;
    for state in [IssueState::Funded, IssueState::Subscribing] {
        assert_eq!(
            refund(&undersubscribed(state, face), closed_at() + DAY, LOTS),
            Err(ClubError::IssueNotFailed)
        );
    }
}

#[test]
fn an_issue_past_the_subscription_stage_refuses_refunds() {
    let face = stored_issue(IssueState::Subscribing, 0).face;
    for state in [IssueState::Funded, IssueState::Repaying, IssueState::PastDue, IssueState::Repaid] {
        assert_eq!(
            refund(&undersubscribed(state, face - LOTS), closed_at() + DAY, LOTS),
            Err(ClubError::IssueNotFailed)
        );
    }
}

#[test]
fn a_wallet_holding_no_bonds_has_nothing_to_refund() {
    assert_eq!(
        refund(&undersubscribed(IssueState::Subscribing, LOTS), closed_at() + DAY, 0),
        Err(ClubError::NothingToRefund)
    );
}

#[test]
fn a_balance_above_what_was_raised_is_an_overflow() {
    assert_eq!(
        refund(&undersubscribed(IssueState::Subscribing, LOTS), closed_at() + DAY, LOTS + 1),
        Err(ClubError::MathOverflow)
    );
}
