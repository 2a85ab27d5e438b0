use std::str::FromStr;

use barter_instrument::asset::name::AssetNameExchange;
use barter_instrument::exchange::ExchangeId;
use barter_instrument::instrument::kind::InstrumentKind;
use barter_instrument::instrument::name::InstrumentNameExchange;
use barter_instrument::instrument::quote::InstrumentQuoteAsset;
use barter_instrument::Underlying;

use barter_python::config::{InstrumentConfig, SystemConfig};
use barter_python::decimal::Dec;
use barter_python::risk::{RiskConfiguration, RiskInstrumentLimits, RiskLimits, RiskLimitsError};

fn dec(text: &str) -> Dec {
    let u = rust_decimal::Decimal::from_str(text).unwrap().unpack();
    Dec { lo: u.lo, mid: u.mid, hi: u.hi, negative: u.negative, scale: u.scale }
}

fn sample_config() -> SystemConfig {
    SystemConfig {
        instruments: vec![InstrumentConfig {
            exchange: ExchangeId::BinanceSpot,
            name_exchange: InstrumentNameExchange::new("BTCUSDT".to_string()),
            underlying: Underlying {
                base: AssetNameExchange::new("btc".to_string()),
                quote: AssetNameExchange::new("usdt".to_string()),
            },
            quote: InstrumentQuoteAsset::UnderlyingQuote,
            kind: InstrumentKind::Spot,
            spec: None,
        }],
        executions: Vec::new(),
        risk: RiskConfiguration::new(),
    }
}

fn limits(notional: Option<&str>, leverage: Option<&str>, exposure: Option<&str>) -> RiskLimits {
    RiskLimits {
        max_position_notional: notional.map(dec),
        max_position_quantity: None,
        max_leverage: leverage.map(dec),
        max_exposure_percent: exposure.map(dec),
    }
}

#[test]
fn global_limits_validation() {
    let mut config = sample_config();
    config
        .set_global_risk_limits(Some(RiskLimits {
            max_position_notional: Some(dec("1000")),
            max_position_quantity: None,
            max_leverage: Some(dec("2")),
            max_exposure_percent: Some(dec("0.5")),
        }))
        .unwrap();

    assert_eq!(config.risk().global().unwrap().max_leverage, Some(dec("2")));
}

#[test]
fn rejects_invalid_exposure() {
    let mut config = sample_config();
    let err = config
        .set_global_risk_limits(Some(RiskLimits {
            max_position_notional: None,
            max_position_quantity: None,
            max_leverage: None,
            max_exposure_percent: Some(dec("1.5")),
        }))
        .unwrap_err();

    assert!(matches!(err, RiskLimitsError::ExposurePercentOutOfRange { .. }));
}

#[test]
fn instrument_limits_round_trip() {
    let mut config = sample_config();
    config
        .set_instrument_risk_limits(
            0,
            Some(RiskLimits {
                max_position_notional: Some(dec("5000")),
                max_position_quantity: None,
                max_leverage: None,
                max_exposure_percent: None,
            }),
        )
        .unwrap();

    let limits = config.instrument_risk_limits(0).unwrap();
    assert_eq!(limits.max_position_notional, Some(dec("5000")));

    config.set_instrument_risk_limits(0, None).unwrap();
    assert!(config.instrument_risk_limits(0).is_none());
}

#[test]
fn instrument_index_bounds_check() {
    let mut config = sample_config();
    let err = config
        .set_instrument_risk_limits(
            1,
            Some(RiskLimits {
                max_position_notional: None,
                max_position_quantity: None,
                max_leverage: None,
                max_exposure_percent: None,
            }),
        )
        .unwrap_err();

    assert!(matches!(err, RiskLimitsError::InstrumentIndexOutOfBounds { .. }));
}

#[test]
fn bounds_error_reports_index_and_total() {
    let mut config = sample_config();
    let err = config.set_instrument_risk_limits(7, None).unwrap_err();
    assert_eq!(err, RiskLimitsError::InstrumentIndexOutOfBounds { index: 7, total: 1 });
    assert!(config.risk().instruments.is_empty());
}

#[test]
fn non_positive_thresholds_are_named_in_field_order() {
    let l = RiskLimits {
        max_position_notional: Some(dec("10")),
        max_position_quantity: Some(dec("0")),
        max_leverage: Some(dec("-1")),
        max_exposure_percent: None,
    };
    assert_eq!(
        l.validate(),
        Err(RiskLimitsError::NonPositive { field: "max_position_quantity", value: dec("0") })
    );

    let l = limits(None, Some("-0.5"), None);
    assert_eq!(
        l.validate(),
        Err(RiskLimitsError::NonPositive { field: "max_leverage", value: dec("-0.5") })
    );

    let l = limits(Some("-3"), None, None);
    assert_eq!(
        l.validate(),
        Err(RiskLimitsError::NonPositive { field: "max_position_notional", value: dec("-3") })
    );
}

#[test]
fn exposure_bounds_are_half_open() {
    assert_eq!(limits(None, None, Some("1")).validate(), Ok(()));
    assert_eq!(limits(None, None, Some("1.000")).validate(), Ok(()));
    assert_eq!(limits(None, None, Some("0.0001")).validate(), Ok(()));
    assert_eq!(
        limits(None, None, Some("0")).validate(),
        Err(RiskLimitsError::ExposurePercentOutOfRange { exposure: dec("0") })
    );
    assert_eq!(
        limits(None, None, Some("1.0000001")).validate(),
        Err(RiskLimitsError::ExposurePercentOutOfRange { exposure: dec("1.0000001") })
    );
}

#[test]
fn refused_global_limits_leave_config_unchanged() {
    let mut risk = RiskConfiguration::new();
    risk.set_global(Some(limits(Some("100"), None, None))).unwrap();
    let err = risk.set_global(Some(limits(Some("0"), None, None))).unwrap_err();
    assert_eq!(err, RiskLimitsError::NonPositive { field: "max_position_notional", value: dec("0") });
    assert_eq!(risk.global().unwrap().max_position_notional, Some(dec("100")));
    risk.set_global(None).unwrap();
    assert!(risk.global().is_none());
}

#[test]
fn set_keeps_entries_sorted_and_other_indices() {
    let mut risk = RiskConfiguration::new();
    risk.set_instrument_limits(5, Some(limits(Some("5"), None, None))).unwrap();
    risk.set_instrument_limits(1, Some(limits(Some("1"), None, None))).unwrap();
    risk.set_instrument_limits(3, Some(limits(Some("3"), None, None))).unwrap();
    let indices: Vec<usize> = risk.instruments.iter().map(|e| e.index).collect();
    assert_eq!(indices, vec![1, 3, 5]);

    risk.set_instrument_limits(3, Some(limits(Some("33"), None, None))).unwrap();
    assert_eq!(risk.instrument_limits(3).unwrap().max_position_notional, Some(dec("33")));
    assert_eq!(risk.instrument_limits(1).unwrap().max_position_notional, Some(dec("1")));
    assert_eq!(risk.instrument_limits(5).unwrap().max_position_notional, Some(dec("5")));
    assert_eq!(risk.instruments.len(), 3);

    risk.set_instrument_limits(1, None).unwrap();
    assert!(risk.instrument_limits(1).is_none());
    assert_eq!(risk.instrument_limits(5).unwrap().max_position_notional, Some(dec("5")));
    assert!(risk.instrument_limits(9).is_none());
}

#[test]
fn unsorted_duplicates_are_stably_sorted_on_set() {
    let mut risk = RiskConfiguration {
        global: None,
        instruments: vec![
            RiskInstrumentLimits { index: 4, limits: limits(Some("41"), None, None) },
            RiskInstrumentLimits { index: 2, limits: limits(Some("21"), None, None) },
            RiskInstrumentLimits { index: 4, limits: limits(Some("42"), None, None) },
        ],
    };
    // a lookup answers the first entry of an index
    assert_eq!(risk.instrument_limits(4).unwrap().max_position_notional, Some(dec("41")));

    risk.set_instrument_limits(4, Some(limits(Some("40"), None, None))).unwrap();
    let notionals: Vec<(usize, Option<Dec>)> =
        risk.instruments.iter().map(|e| (e.index, e.limits.max_position_notional)).collect();
    assert_eq!(
        notionals,
        vec![(2, Some(dec("21"))), (4, Some(dec("40"))), (4, Some(dec("42")))]
    );

    risk.set_instrument_limits(4, None).unwrap();
    let indices: Vec<usize> = risk.instruments.iter().map(|e| e.index).collect();
    assert_eq!(indices, vec![2]);
}

#[test]
fn invalid_instrument_limits_are_refused_before_any_change() {
    let mut config = sample_config();
    let err = config
        .set_instrument_risk_limits(0, Some(limits(None, Some("0"), None)))
        .unwrap_err();
    assert_eq!(err, RiskLimitsError::NonPositive { field: "max_leverage", value: dec("0") });
    assert!(config.instrument_risk_limits(0).is_none());
}
