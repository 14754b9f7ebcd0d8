//! The accounts of the protocol, held as plain values.
//!
//! The canonical state lives on chain; these are the values the instructions
//! read and write. Every account address is a [`Key`].
use vstd::prelude::*;

verus! {

/// A 32-byte account address.
#[derive(Clone, Copy, Debug, PartialEq, Eq)]
pub struct Key {
    pub bytes: [u8; 32],
}

impl Key {
    /// Two addresses are the same account when all 32 bytes agree.
    pub fn same_as(&self, other: &Key) -> (r: bool)
        ensures
            r == (self.bytes@ == other.bytes@),
    {
        let mut i: usize = 0;
        while i < 32
            invariant
                i <= 32,
                forall|j: int| 0 <= j < i ==> self.bytes@[j] == other.bytes@[j],
            decreases 32 - i,
        {
            if self.bytes[i] != other.bytes[i] {
                return false;
            }
            i = i + 1;
        }
        assert(self.bytes@ =~= other.bytes@);
        true
    }
}

/// Life cycle of an issue. The declaration order is the byte written on
/// chain, so variants are only ever appended.
#[derive(Clone, Copy, Debug, PartialEq, Eq, Structural)]
pub enum IssueState {
    Subscribing,
    Funded,
    Repaying,
    PastDue,
    Repaid,
    Failed,
}

/// Protocol parameters; a singleton.
#[derive(Clone, Copy, Debug, PartialEq, Eq)]
pub struct ProtocolConfig {
    pub admin: Key,
    /// 100..=200 = 1..2%.
    pub origination_fee_bps: u16,
    pub trading_fee_bps: u16,
    /// Cap on the intercepted share.
    pub max_pledge_bps: u16,
    /// The protocol's term range, inside 30..=180 days.
    pub min_tenor_secs: i64,
    pub max_tenor_secs: i64,
    /// How much revenue history a source needs before an issue.
    pub history_threshold_secs: i64,
    pub usdc_mint: Key,
    pub fee_vault: Key,
    pub bump: u8,
}

/// A revenue source.
#[derive(Clone, Copy, Debug, PartialEq, Eq)]
pub struct RevenueSource {
    pub issuer: Key,
    /// The key whose signature alone delivers revenue.
    pub authority: Key,
    pub vault: Key,
    /// History starts when interception is connected.
    pub first_seen_ts: i64,
    pub total_observed: u64,
    /// Snapshot of `total_observed` when the issue was created.
    pub observed_before_issue: u64,
    /// At most one active issue per source.
    pub active_issue: Option<Key>,
    pub seq: u64,
    pub bump: u8,
}

/// An issue of bonds.
#[derive(Clone, Copy, Debug, PartialEq, Eq)]
pub struct Issue {
    pub source: Key,
    pub bond_mint: Key,
    pub escrow_vault: Key,
    pub subscription_vault: Key,
    pub face: u64,
    pub coupon_bps: u16,
    pub pledge_bps: u16,
    pub maturity_ts: i64,
    pub subscription_end_ts: i64,
    pub min_lot: u64,
    pub raised: u64,
    /// Face plus coupon, fixed at creation.
    pub obligation_total: u64,
    pub repaid_total: u64,
    /// Cumulative payout per bond unit, scaled by `math::SCALE`.
    pub payout_index: u128,
    pub state: IssueState,
    pub seq: u64,
    pub bump: u8,
}

/// A holder's ledger on one issue. Its existence is the open position that
/// a bond transfer requires.
#[derive(Clone, Copy, Debug, PartialEq, Eq)]
pub struct HolderCheckpoint {
    pub issue: Key,
    pub owner: Key,
    /// Where the next claim is counted from.
    pub index_at_checkpoint: u128,
    /// Accrued by the hook on transfers and not yet taken.
    pub accrued: u64,
    pub claimed_total: u64,
    pub bump: u8,
}

impl Issue {
    /// What every issue keeps true through every instruction: the lot is
    /// positive, nothing is raised above the face, nothing is repaid above the obligation, and a
    /// repaid issue is repaid in full.
    pub open spec fn well_formed(self) -> bool {
        &&& self.min_lot > 0
        &&& self.raised <= self.face
        &&& self.repaid_total <= self.obligation_total
        &&& self.state == IssueState::Repaid ==> self.repaid_total == self.obligation_total
        &&& self.state == IssueState::Funded ==> self.raised == self.face
    }

    /// The fixed terms of an issue, which no instruction changes after
    /// creation.
    pub open spec fn same_terms(self, other: Issue) -> bool {
        &&& self.source == other.source
        &&& self.bond_mint == other.bond_mint
        &&& self.escrow_vault == other.escrow_vault
        &&& self.subscription_vault == other.subscription_vault
        &&& self.face == other.face
        &&& self.coupon_bps == other.coupon_bps
        &&& self.pledge_bps == other.pledge_bps
        &&& self.maturity_ts == other.maturity_ts
        &&& self.subscription_end_ts == other.subscription_end_ts
        &&& self.min_lot == other.min_lot
        &&& self.obligation_total == other.obligation_total
        &&& self.seq == other.seq
        &&& self.bump == other.bump
    }
}

} // verus!
