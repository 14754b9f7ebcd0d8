use daddys_club::errors::ClubError;
use daddys_club::protocol::{
    init_protocol, update_config, ConfigParams, MAX_ORIGINATION_FEE_BPS, MAX_TENOR_SECS,
    MIN_ORIGINATION_FEE_BPS, MIN_TENOR_SECS,
};
use daddys_club::state::{Key, ProtocolConfig};

const DAY: i64 = 86_400;

fn key(byte: u8) -> Key {
    Key { bytes: [byte; 32] }
}

const ADMIN: u8 = 11;
const USDC_MINT: u8 = 21;
const FEE_VAULT: u8 = 22;
const BUMP: u8 = 254;

fn valid_params() -> ConfigParams {
    ConfigParams {
        origination_fee_bps: 150,
        trading_fee_bps: 50,
        max_pledge_bps: 3_000,
        min_tenor_secs: 30 * DAY,
        max_tenor_secs: 180 * DAY,
        history_threshold_secs: 7 * DAY,
    }
}

fn init(params: ConfigParams) -> Result<ProtocolConfig, ClubError> {
    init_protocol(key(ADMIN), key(USDC_MINT), key(FEE_VAULT), BUMP, params)
}

fn stored_config() -> ProtocolConfig {
    init(valid_params()).unwrap()
}

#[test]
fn the_bounds_are_the_documented_ones() {
    assert_eq!(MIN_ORIGINATION_FEE_BPS, 100);
    assert_eq!(MAX_ORIGINATION_FEE_BPS, 200);
    assert_eq!(MIN_TENOR_SECS, 30 * DAY);
    assert_eq!(MAX_TENOR_SECS, 180 * DAY);
}

#[test]
fn init_protocol_writes_the_parameters_the_admin_asked_for() {
    let params = valid_params();
    let config = init(params).unwrap();

    assert_eq!(config.admin, key(ADMIN));
    assert_eq!(config.usdc_mint, key(USDC_MINT));
    assert_eq!(config.fee_vault, key(FEE_VAULT));
    assert_eq!(config.origination_fee_bps, params.origination_fee_bps);
    assert_eq!(config.trading_fee_bps, params.trading_fee_bps);
    assert_eq!(config.max_pledge_bps, params.max_pledge_bps);
    assert_eq!(config.min_tenor_secs, params.min_tenor_secs);
    assert_eq!(config.max_tenor_secs, params.max_tenor_secs);
    assert_eq!(config.history_threshold_secs, params.history_threshold_secs);
    assert_eq!(config.bump, BUMP);
}

#[test]
fn init_protocol_refuses_an_origination_fee_outside_one_to_two_percent() {
    for fee in [0, 99, 201, 10_000] {
        assert_eq!(
            init(ConfigParams { origination_fee_bps: fee, ..valid_params() }),
            Err(ClubError::FeeOutOfRange)
        );
    }
    for fee in [100, 200] {
        assert!(init(ConfigParams { origination_fee_bps: fee, ..valid_params() }).is_ok());
    }
}

#[test]
fn init_protocol_refuses_a_trading_fee_above_the_whole_price() {
    assert_eq!(
        init(ConfigParams { trading_fee_bps: 10_001, ..valid_params() }),
        Err(ClubError::FeeOutOfRange)
    );
    assert!(init(ConfigParams { trading_fee_bps: 10_000, ..valid_params() }).is_ok());
}

#[test]
fn init_protocol_refuses_a_pledge_cap_that_is_not_a_cap() {
    for cap in [0, 10_001] {
        assert_eq!(
            init(ConfigParams { max_pledge_bps: cap, ..valid_params() }),
            Err(ClubError::PledgeCapOutOfRange)
        );
    }
}

#[test]
fn init_protocol_refuses_a_term_range_outside_thirty_to_a_hundred_and_eighty_days() {
    let outside = [
        ConfigParams { min_tenor_secs: 29 * DAY, ..valid_params() },
        ConfigParams { max_tenor_secs: 181 * DAY, ..valid_params() },
        ConfigParams { min_tenor_secs: 90 * DAY, max_tenor_secs: 60 * DAY, ..valid_params() },
    ];
    for params in outside {
        assert_eq!(init(params), Err(ClubError::TermRangeOutOfBounds));
    }
}

#[test]
fn init_protocol_refuses_a_history_threshold_that_admits_everyone() {
    for threshold in [0, -1] {
        assert_eq!(
            init(ConfigParams { history_threshold_secs: threshold, ..valid_params() }),
            Err(ClubError::HistoryThresholdInvalid)
        );
    }
}

#[test]
fn the_first_broken_rule_names_the_error() {
    // Both the fee and the cap are wrong: the fee is checked first.
    assert_eq!(
        init(ConfigParams { origination_fee_bps: 0, max_pledge_bps: 0, ..valid_params() }),
        Err(ClubError::FeeOutOfRange)
    );
}

#[test]
fn update_config_replaces_the_parameters_and_nothing_else() {
    let changed = ConfigParams {
        origination_fee_bps: 200,
        trading_fee_bps: 0,
        max_pledge_bps: 10_000,
        min_tenor_secs: 45 * DAY,
        max_tenor_secs: 120 * DAY,
        history_threshold_secs: 1,
    };
    let mut config = stored_config();
    assert_eq!(update_config(&mut config, changed), Ok(()));

    assert_eq!(config.origination_fee_bps, changed.origination_fee_bps);
    assert_eq!(config.trading_fee_bps, changed.trading_fee_bps);
    assert_eq!(config.max_pledge_bps, changed.max_pledge_bps);
    assert_eq!(config.min_tenor_secs, changed.min_tenor_secs);
    assert_eq!(config.max_tenor_secs, changed.max_tenor_secs);
    assert_eq!(config.history_threshold_secs, changed.history_threshold_secs);

    assert_eq!(config.admin, key(ADMIN));
    assert_eq!(config.usdc_mint, key(USDC_MINT));
    assert_eq!(config.fee_vault, key(FEE_VAULT));
    assert_eq!(config.bump, BUMP);
}

#[test]
fn update_config_refuses_everything_init_refuses() {
    let refused = [
        (ConfigParams { origination_fee_bps: 201, ..valid_params() }, ClubError::FeeOutOfRange),
        (ConfigParams { max_pledge_bps: 0, ..valid_params() }, ClubError::PledgeCapOutOfRange),
        (ConfigParams { max_tenor_secs: 181 * DAY, ..valid_params() }, ClubError::TermRangeOutOfBounds),
        (ConfigParams { history_threshold_secs: 0, ..valid_params() }, ClubError::HistoryThresholdInvalid),
    ];
    for (params, error) in refused {
        let mut config = stored_config();
        assert_eq!(update_config(&mut config, params), Err(error));
        assert_eq!(config, stored_config(), "a refused change altered the config");
        assert_eq!(init(params), Err(error));
    }
}

#[test]
fn validate_and_apply_to_are_the_two_halves_of_a_change() {
    let params = ConfigParams { max_pledge_bps: 6_000, ..valid_params() };
    assert_eq!(params.validate(), Ok(()));
    let mut config = stored_config();
    params.apply_to(&mut config);
    assert_eq!(config.max_pledge_bps, 6_000);
    assert_eq!(config.admin, key(ADMIN));
}
