use daddys_club::errors::ClubError;
use daddys_club::math::SCALE;
use daddys_club::source::{intercept, register_source};
use daddys_club::state::{Issue, IssueState, Key, RevenueSource};

const NOW: i64 = 1_800_000_000;
const DAY: i64 = 86_400;
const INFLOW: u64 = 1_070_000_000;
const SHARE: u64 = 128_400_000;
const INDEX_PER_UNIT: u128 = 4;

fn key(byte: u8) -> Key {
    Key { bytes: [byte; 32] }
}

fn stored_issue(state: IssueState, payout_index: u128) -> Issue {
    Issue {
        source: key(51),
        bond_mint: key(23),
        escrow_vault: key(34),
        subscription_vault: key(33),
        face: 250_000_000_000,
        coupon_bps: 950,
        pledge_bps: 1_200,
        maturity_ts: NOW + 90 * DAY,
        subscription_end_ts: NOW + 7 * DAY,
        min_lot: 1_000_000,
        raised: 0,
        obligation_total: 273_750_000_000,
        repaid_total: 0,
        payout_index,
        state,
        seq: 0,
        bump: 253,
    }
}

fn repaying(repaid_total: u64, payout_index: u128) -> Issue {
    let issue = stored_issue(IssueState::Repaying, payout_index);
    Issue { raised: issue.face, repaid_total, ..issue }
}

fn stored_source(active_issue: Option<Key>, total_observed: u64) -> RevenueSource {
    RevenueSource {
        issuer: key(12),
        authority: key(60),
        vault: key(32),
        first_seen_ts: NOW - 30 * DAY,
        total_observed,
        observed_before_issue: 0,
        active_issue,
        seq: 0,
        bump: 250,
    }
}

/// The bond supply of an issue in repayment: the whole face.
fn supply() -> u64 {
    stored_issue(IssueState::Repaying, 0).face
}

#[test]
fn register_source_records_who_may_deliver_revenue_and_where_it_lands() {
    let source = register_source(key(12), key(60), key(32), NOW, 3, 247);
    assert_eq!(source.issuer, key(12));
    assert_eq!(source.authority, key(60));
    assert_eq!(source.vault, key(32));
    assert_eq!(source.seq, 3);
    assert_eq!(source.bump, 247);
}

#[test]
fn the_history_of_a_fresh_source_starts_now_and_is_empty() {
    let source = register_source(key(12), key(60), key(32), NOW, 0, 247);
    assert_eq!(source.first_seen_ts, NOW);
    assert_eq!(source.total_observed, 0);
    assert_eq!(source.observed_before_issue, 0);
    assert_eq!(source.active_issue, None);
}

#[test]
fn the_index_scale_gives_four_per_unit_on_the_demo_supply() {
    assert_eq!(SCALE / supply() as u128, INDEX_PER_UNIT);
}

#[test]
fn intercept_splits_the_inflow_where_it_arises() {
    let out = intercept(&stored_source(Some(key(50)), 0), Some((repaying(0, 0), supply())), INFLOW).unwrap();

    assert_eq!(out.to_escrow, SHARE);
    let issue = out.issue.unwrap();
    assert_eq!(issue.repaid_total, SHARE);
    assert_eq!(issue.payout_index, u128::from(SHARE) * INDEX_PER_UNIT);
    assert_eq!(issue.state, IssueState::Repaying, "the issue closed before paying the obligation");
}

#[test]
fn the_payout_index_moves_instead_of_paying_every_holder() {
    let already = 4_000_000_000;
    let out = intercept(&stored_source(Some(key(50)), 0), Some((repaying(0, already), supply())), INFLOW).unwrap();

    assert_eq!(
        out.issue.unwrap().payout_index,
        already + u128::from(SHARE) * INDEX_PER_UNIT,
        "the index did not move from where it stood"
    );
}

#[test]
fn the_history_grows_even_when_no_issue_exists_yet() {
    let before = 3_000_000_000;
    let out = intercept(&stored_source(None, before), None, INFLOW).unwrap();

    assert_eq!(out.source.total_observed, before + INFLOW);
    assert_eq!(out.to_escrow, 0, "nothing leaves the source vault without an issue");
    assert_eq!(out.issue, None);
}

#[test]
fn the_history_counts_the_whole_inflow_not_the_intercepted_share() {
    let out = intercept(&stored_source(Some(key(50)), 0), Some((repaying(0, 0), supply())), INFLOW).unwrap();
    assert_eq!(out.source.total_observed, INFLOW, "the share entered the history, not the inflow");
}

#[test]
fn an_issue_that_is_not_in_repayment_lets_the_whole_flow_through() {
    for state in [IssueState::Subscribing, IssueState::Funded, IssueState::PastDue, IssueState::Failed] {
        let issue = Issue { raised: stored_issue(state, 0).face, ..stored_issue(state, 0) };

        let out = intercept(&stored_source(Some(key(50)), 0), Some((issue, supply())), INFLOW).unwrap();

        assert_eq!(out.to_escrow, 0, "{state:?} split the flow");
        let after = out.issue.unwrap();
        assert_eq!(after.repaid_total, 0, "{state:?}");
        assert_eq!(after.payout_index, 0, "{state:?}");
        assert_eq!(out.source.total_observed, INFLOW, "{state:?} did not see the revenue");
    }
}

#[test]
fn the_last_inflow_takes_only_what_is_left_and_closes_the_obligation() {
    let obligation = repaying(0, 0).obligation_total;
    let tail = 50_000_000;

    assert!(tail < SHARE, "the tail must be smaller than the share");

    let out = intercept(
        &stored_source(Some(key(50)), 0),
        Some((repaying(obligation - tail, 0), supply())),
        INFLOW,
    )
    .unwrap();

    assert_eq!(out.to_escrow, tail);
    let issue = out.issue.unwrap();
    assert_eq!(issue.repaid_total, obligation);
    assert_eq!(issue.state, IssueState::Repaid);
    assert_eq!(issue.payout_index, u128::from(tail) * INDEX_PER_UNIT);
}

#[test]
fn a_repaid_issue_lets_every_later_fee_through_untouched() {
    let obligation = repaying(0, 0).obligation_total;
    let closed = Issue {
        repaid_total: obligation,
        state: IssueState::Repaid,
        ..repaying(obligation, 7_000_000_000)
    };

    let out = intercept(&stored_source(Some(key(50)), 0), Some((closed, supply())), INFLOW).unwrap();

    assert_eq!(out.to_escrow, 0);
    let issue = out.issue.unwrap();
    assert_eq!(issue.repaid_total, obligation);
    assert_eq!(issue.payout_index, 7_000_000_000, "the index moved afterwards");
    assert_eq!(issue.state, IssueState::Repaid);
}

#[test]
fn a_dust_inflow_rounds_the_share_down_to_nothing() {
    let out = intercept(&stored_source(Some(key(50)), 0), Some((repaying(0, 0), supply())), 7).unwrap();

    assert_eq!(out.to_escrow, 0);
    let issue = out.issue.unwrap();
    assert_eq!(issue.repaid_total, 0);
    assert_eq!(issue.payout_index, 0);
    assert_eq!(out.source.total_observed, 7, "dust is revenue too");
}

#[test]
fn a_bond_supply_of_zero_is_refused_by_name() {
    assert_eq!(
        intercept(&stored_source(Some(key(50)), 0), Some((repaying(0, 0), 0)), INFLOW),
        Err(ClubError::ZeroBondSupply)
    );
}

#[test]
fn a_history_that_would_overflow_is_refused() {
    assert_eq!(intercept(&stored_source(None, u64::MAX), None, 1), Err(ClubError::MathOverflow));
}

#[test]
fn an_issue_repaid_beyond_its_obligation_is_an_overflow() {
    let broken = repaying(273_750_000_001, 0);
    assert_eq!(
        intercept(&stored_source(Some(key(50)), 0), Some((broken, supply())), INFLOW),
        Err(ClubError::MathOverflow)
    );
}
