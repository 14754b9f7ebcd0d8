//! Protocol parameters: creation and change.
//!
//! Both instructions take the same [`ConfigParams`] and check them with one
//! function: a set that cannot be created must not become reachable through
//! a change. A change never reaches an existing issue: neither function sees
//! one.
use vstd::prelude::*;
use crate::errors::ClubError;
use crate::math::BPS_DENOM;
use crate::state::{Key, ProtocolConfig};

verus! {

/// Origination fee: 1..2%.
pub const MIN_ORIGINATION_FEE_BPS: u16 = 100;

pub const MAX_ORIGINATION_FEE_BPS: u16 = 200;

/// The protocol's term range must itself fit in 30..180 days.
pub const MIN_TENOR_SECS: i64 = 2_592_000;

pub const MAX_TENOR_SECS: i64 = 15_552_000;

/// The parameters the administrator sets and later changes.
#[derive(Clone, Copy, Debug, PartialEq, Eq)]
pub struct ConfigParams {
    pub origination_fee_bps: u16,
    pub trading_fee_bps: u16,
    pub max_pledge_bps: u16,
    pub min_tenor_secs: i64,
    pub max_tenor_secs: i64,
    pub history_threshold_secs: i64,
}

/// The first rule a parameter set breaks, in the order they are checked.
pub open spec fn config_params_error(p: ConfigParams) -> Option<ClubError> {
    if !(MIN_ORIGINATION_FEE_BPS <= p.origination_fee_bps <= MAX_ORIGINATION_FEE_BPS) {
        Some(ClubError::FeeOutOfRange)
    } else if p.trading_fee_bps > BPS_DENOM {
        Some(ClubError::FeeOutOfRange)
    } else if !(p.max_pledge_bps > 0 && p.max_pledge_bps <= BPS_DENOM) {
        Some(ClubError::PledgeCapOutOfRange)
    } else if !(p.min_tenor_secs >= MIN_TENOR_SECS && p.max_tenor_secs <= MAX_TENOR_SECS
        && p.min_tenor_secs <= p.max_tenor_secs) {
        Some(ClubError::TermRangeOutOfBounds)
    } else if p.history_threshold_secs <= 0 {
        Some(ClubError::HistoryThresholdInvalid)
    } else {
        None
    }
}

/// `config` with the parameter fields replaced by `p` and every other field
/// kept.
pub open spec fn applied(p: ConfigParams, config: ProtocolConfig) -> ProtocolConfig {
    ProtocolConfig {
        origination_fee_bps: p.origination_fee_bps,
        trading_fee_bps: p.trading_fee_bps,
        max_pledge_bps: p.max_pledge_bps,
        min_tenor_secs: p.min_tenor_secs,
        max_tenor_secs: p.max_tenor_secs,
        history_threshold_secs: p.history_threshold_secs,
        ..config
    }
}

/// What `init_protocol` answers.
pub open spec fn init_protocol_spec(
    admin: Key,
    usdc_mint: Key,
    fee_vault: Key,
    bump: u8,
    p: ConfigParams,
) -> Result<ProtocolConfig, ClubError> {
    match config_params_error(p) {
        Some(e) => Err(e),
        None => Ok(
            ProtocolConfig {
                admin,
                origination_fee_bps: p.origination_fee_bps,
                trading_fee_bps: p.trading_fee_bps,
                max_pledge_bps: p.max_pledge_bps,
                min_tenor_secs: p.min_tenor_secs,
                max_tenor_secs: p.max_tenor_secs,
                history_threshold_secs: p.history_threshold_secs,
                usdc_mint,
                fee_vault,
                bump,
            },
        ),
    }
}

/// What `update_config` answers, and the configuration it leaves.
pub open spec fn update_config_spec(config: ProtocolConfig, p: ConfigParams) -> (
    Result<(), ClubError>,
    ProtocolConfig,
) {
    match config_params_error(p) {
        Some(e) => (Err(e), config),
        None => (Ok(()), applied(p, config)),
    }
}

impl ConfigParams {
    /// Checks the parameter set against the protocol's rules.
    pub fn validate(&self) -> (r: Result<(), ClubError>)
        ensures
            r == (match config_params_error(*self) {
                Some(e) => Err(e),
                None => Ok(()),
            }),
    {
        if !(MIN_ORIGINATION_FEE_BPS <= self.origination_fee_bps && self.origination_fee_bps
            <= MAX_ORIGINATION_FEE_BPS) {
            return Err(ClubError::FeeOutOfRange);
        }
        // A fee above the whole price would leave the seller nothing to give.
        if self.trading_fee_bps as u128 > BPS_DENOM {
            return Err(ClubError::FeeOutOfRange);
        }
        // A zero cap forbids every issue, one above the whole flow is no cap.
        if !(self.max_pledge_bps > 0 && self.max_pledge_bps as u128 <= BPS_DENOM) {
            return Err(ClubError::PledgeCapOutOfRange);
        }
        if !(self.min_tenor_secs >= MIN_TENOR_SECS && self.max_tenor_secs <= MAX_TENOR_SECS
            && self.min_tenor_secs <= self.max_tenor_secs) {
            return Err(ClubError::TermRangeOutOfBounds);
        }
        // A zero threshold would admit every source.
        if !(self.history_threshold_secs > 0) {
            return Err(ClubError::HistoryThresholdInvalid);
        }
        Ok(())
    }

    /// Writes the parameter fields into `config`, leaving the rest alone.
    pub fn apply_to(&self, config: &mut ProtocolConfig)
        ensures
            *final(config) == applied(*self, *old(config)),
    {
        config.origination_fee_bps = self.origination_fee_bps;
        config.trading_fee_bps = self.trading_fee_bps;
        config.max_pledge_bps = self.max_pledge_bps;
        config.min_tenor_secs = self.min_tenor_secs;
        config.max_tenor_secs = self.max_tenor_secs;
        config.history_threshold_secs = self.history_threshold_secs;
    }
}

/// Creates the protocol configuration: the creator administers it from then
/// on, and the currency and fee vault are fixed here.
pub fn init_protocol(admin: Key, usdc_mint: Key, fee_vault: Key, bump: u8, params: ConfigParams) -> (r:
    Result<ProtocolConfig, ClubError>)
    ensures
        r == init_protocol_spec(admin, usdc_mint, fee_vault, bump, params),
        r is Ok <==> (100 <= params.origination_fee_bps <= 200 && params.trading_fee_bps <= 10_000
            && 0 < params.max_pledge_bps <= 10_000 && 2_592_000 <= params.min_tenor_secs
            <= params.max_tenor_secs <= 15_552_000 && params.history_threshold_secs > 0),
        r matches Ok(c) ==> {
            &&& c.admin == admin
            &&& c.usdc_mint == usdc_mint
            &&& c.fee_vault == fee_vault
            &&& c.bump == bump
            &&& c.origination_fee_bps == params.origination_fee_bps
            &&& c.trading_fee_bps == params.trading_fee_bps
            &&& c.max_pledge_bps == params.max_pledge_bps
            &&& c.min_tenor_secs == params.min_tenor_secs
            &&& c.max_tenor_secs == params.max_tenor_secs
            &&& c.history_threshold_secs == params.history_threshold_secs
        },
{
    match params.validate() {
        Err(e) => Err(e),
        Ok(()) => {
            let mut config = ProtocolConfig {
                admin,
                origination_fee_bps: 0,
                trading_fee_bps: 0,
                max_pledge_bps: 0,
                min_tenor_secs: 0,
                max_tenor_secs: 0,
                history_threshold_secs: 0,
                usdc_mint,
                fee_vault,
                bump,
            };
            params.apply_to(&mut config);
            Ok(config)
        },
    }
}

/// Changes the protocol parameters. The administrator, currency, fee vault
/// and bump stay as they were; a refused set changes nothing.
pub fn update_config(config: &mut ProtocolConfig, params: ConfigParams) -> (r: Result<(), ClubError>)
    ensures
        (r, *final(config)) == update_config_spec(*old(config), params),
        r is Ok <==> (100 <= params.origination_fee_bps <= 200 && params.trading_fee_bps <= 10_000
            && 0 < params.max_pledge_bps <= 10_000 && 2_592_000 <= params.min_tenor_secs
            <= params.max_tenor_secs <= 15_552_000 && params.history_threshold_secs > 0),
        r is Err ==> *final(config) == *old(config),
        r is Ok ==> {
            &&& final(config).admin == old(config).admin
            &&& final(config).usdc_mint == old(config).usdc_mint
            &&& final(config).fee_vault == old(config).fee_vault
            &&& final(config).bump == old(config).bump
            &&& final(config).origination_fee_bps == params.origination_fee_bps
            &&& final(config).trading_fee_bps == params.trading_fee_bps
            &&& final(config).max_pledge_bps == params.max_pledge_bps
            &&& final(config).min_tenor_secs == params.min_tenor_secs
            &&& final(config).max_tenor_secs == params.max_tenor_secs
            &&& final(config).history_threshold_secs == params.history_threshold_secs
        },
{
    match params.validate() {
        Err(e) => Err(e),
        Ok(()) => {
            params.apply_to(config);
            Ok(())
        },
    }
}

/// A change of parameters refuses exactly what a creation refuses, with the
/// same error, whatever configuration it is applied to.
pub proof fn law_update_refuses_what_init_refuses(
    config: ProtocolConfig,
    admin: Key,
    usdc_mint: Key,
    fee_vault: Key,
    bump: u8,
    p: ConfigParams,
    e: ClubError,
)
    ensures
        init_protocol_spec(admin, usdc_mint, fee_vault, bump, p) == Err::<ProtocolConfig, ClubError>(e)
            <==> update_config_spec(config, p).0 == Err::<(), ClubError>(e),
{
}

/// A change of parameters replaces the six parameters and nothing else: the
/// administrator, currency, fee vault and bump survive any accepted change.
pub proof fn law_update_keeps_the_rest(config: ProtocolConfig, p: ConfigParams)
    requires
        update_config_spec(config, p).0 is Ok,
    ensures
        ({
            let after = update_config_spec(config, p).1;
            &&& after.admin == config.admin
            &&& after.usdc_mint == config.usdc_mint
            &&& after.fee_vault == config.fee_vault
            &&& after.bump == config.bump
            &&& config_params_error(
                ConfigParams {
                    origination_fee_bps: after.origination_fee_bps,
                    trading_fee_bps: after.trading_fee_bps,
                    max_pledge_bps: after.max_pledge_bps,
                    min_tenor_secs: after.min_tenor_secs,
                    max_tenor_secs: after.max_tenor_secs,
                    history_threshold_secs: after.history_threshold_secs,
                },
            ) is None
        }),
{
}

/// A parameter set is accepted exactly within the protocol's bounds: an
/// origination fee of 1-2%, a trading fee of at most the whole price, a cap
/// on the share above zero and at most the whole flow, a term range inside
/// 30-180 days that is not empty, and a history threshold above zero.
pub proof fn law_parameters_are_accepted_exactly_within_the_bounds(p: ConfigParams)
    ensures
        config_params_error(p) is None <==> (100 <= p.origination_fee_bps <= 200 && p.trading_fee_bps
            <= 10_000 && 0 < p.max_pledge_bps <= 10_000 && 30 * 86_400 <= p.min_tenor_secs
            <= p.max_tenor_secs <= 180 * 86_400 && p.history_threshold_secs > 0),
{
}

} // verus!
