use std::str::FromStr;

use barter_python::balance::{
    balance_from_text, initial_balance_from_inputs, Balance, BalanceError, BalanceTextError,
    InitialBalanceError,
};
use barter_python::decimal::{parse_decimal_text, resolve_amount, AmountError, AmountInput, Dec};
use barter_python::instrument::{
    spec_quantity_from_inputs, InstrumentSpecNotional, InstrumentSpecPrice, SpecError,
    SpecInputError,
};
use barter_python::risk::RiskLimits;

fn dec(text: &str) -> Dec {
    let u = rust_decimal::Decimal::from_str(text).unwrap().unpack();
    Dec { lo: u.lo, mid: u.mid, hi: u.hi, negative: u.negative, scale: u.scale }
}

fn parse_message(text: &str) -> String {
    rust_decimal::Decimal::from_str(text).unwrap_err().to_string()
}

#[test]
fn decimal_text_keeps_its_scale() {
    let d = parse_decimal_text("12.500", "x").unwrap();
    assert_eq!((d.lo, d.scale, d.negative), (12500, 3, false));
    let n = parse_decimal_text("-0.25", "x").unwrap();
    assert_eq!((n.lo, n.scale, n.negative), (25, 2, true));
    assert_eq!(
        parse_decimal_text("abc", "price"),
        Err(AmountError::Invalid { label: "price", message: parse_message("abc") })
    );
}

#[test]
fn amounts_resolve_by_kind() {
    assert_eq!(resolve_amount(AmountInput::Finite(dec("1.5")), "q"), Ok(dec("1.5")));
    assert_eq!(resolve_amount(AmountInput::NotFinite, "q"), Err(AmountError::NotFinite { label: "q" }));
    assert_eq!(resolve_amount(AmountInput::Text("7".to_string()), "q"), Ok(dec("7")));
}

#[test]
fn balances_read_from_text() {
    assert_eq!(
        balance_from_text("100.5", "40").unwrap(),
        Balance { total: dec("100.5"), free: dec("40") }
    );
    match balance_from_text("x", "y") {
        Err(BalanceTextError::Invalid(AmountError::Invalid { label, message })) => {
            assert_eq!(label, "total");
            assert_eq!(message, parse_message("x"));
        }
        other => panic!("unexpected result: {other:?}"),
    }
    match balance_from_text("1", "1..2") {
        Err(BalanceTextError::Invalid(AmountError::Invalid { label, .. })) => assert_eq!(label, "free"),
        other => panic!("unexpected result: {other:?}"),
    }
    assert!(matches!(
        balance_from_text("-1", "x"),
        Err(BalanceTextError::Invalid(AmountError::Invalid { label: "free", .. }))
    ));
    assert!(matches!(
        balance_from_text("-1", "0"),
        Err(BalanceTextError::Refused(BalanceError::TotalNegative))
    ));
    assert!(matches!(
        balance_from_text("1", "2"),
        Err(BalanceTextError::Refused(BalanceError::FreeExceedsTotal))
    ));
}

#[test]
fn risk_limits_read_from_text() {
    let limits = RiskLimits::from_text(Some("12500"), None, Some("2.5"), Some("0.1")).unwrap();
    assert_eq!(limits.max_position_notional, Some(dec("12500")));
    assert_eq!(limits.max_position_quantity, None);
    assert_eq!(limits.max_leverage, Some(dec("2.5")));
    assert_eq!(limits.max_exposure_percent, Some(dec("0.1")));
    assert_eq!(
        RiskLimits::from_text(None, Some("many"), Some("bad"), None),
        Err(AmountError::Invalid { label: "max_position_quantity", message: parse_message("many") })
    );
}

#[test]
fn instrument_specs_read_amounts_in_turn() {
    let price = InstrumentSpecPrice::from_inputs(
        AmountInput::Text("0.01".to_string()),
        AmountInput::Finite(dec("0.5")),
    )
    .unwrap();
    assert_eq!(price.min, dec("0.01"));
    assert_eq!(price.tick_size, dec("0.5"));
    // the minimum is checked before the tick size is read
    assert_eq!(
        InstrumentSpecPrice::from_inputs(
            AmountInput::Finite(dec("-1")),
            AmountInput::Text("oops".to_string()),
        ),
        Err(SpecInputError::Spec(SpecError::Negative { field: "min" }))
    );
    assert_eq!(
        InstrumentSpecPrice::from_inputs(AmountInput::Finite(dec("1")), AmountInput::NotFinite),
        Err(SpecInputError::Amount(AmountError::NotFinite { label: "tick_size" }))
    );
    assert_eq!(
        spec_quantity_from_inputs(AmountInput::Finite(dec("1")), AmountInput::Finite(dec("-0.1"))),
        Err(SpecInputError::Spec(SpecError::NotPositive { field: "increment" }))
    );
    assert_eq!(
        InstrumentSpecNotional::from_input(AmountInput::Text("5".to_string())).unwrap().min,
        dec("5")
    );
    assert_eq!(
        InstrumentSpecNotional::from_input(AmountInput::Finite(dec("-5"))),
        Err(SpecInputError::Spec(SpecError::NotPositive { field: "min" }))
    );
}

#[test]
fn initial_balance_amounts_may_be_text() {
    let b = initial_balance_from_inputs(
        0,
        AmountInput::Text("10000".to_string()),
        Some(AmountInput::Text("10000".to_string())),
    )
    .unwrap();
    assert_eq!(b, Balance { total: dec("10000"), free: dec("10000") });
    let b = initial_balance_from_inputs(1, AmountInput::Finite(dec("4321.5")), None).unwrap();
    assert_eq!(b.free, dec("4321.5"));
    match initial_balance_from_inputs(2, AmountInput::Text("lots".to_string()), None) {
        Err(InitialBalanceError::InvalidAmount { index, error }) => {
            assert_eq!(index, 2);
            assert!(matches!(error, AmountError::Invalid { label: "total", .. }));
        }
        other => panic!("unexpected result: {other:?}"),
    }
    match initial_balance_from_inputs(3, AmountInput::Finite(dec("1")), Some(AmountInput::NotFinite)) {
        Err(InitialBalanceError::InvalidAmount { index, error }) => {
            assert_eq!(index, 3);
            assert_eq!(error, AmountError::NotFinite { label: "free" });
        }
        other => panic!("unexpected result: {other:?}"),
    }
    assert!(matches!(
        initial_balance_from_inputs(4, AmountInput::Finite(dec("1")), Some(AmountInput::Text("2".to_string()))),
        Err(InitialBalanceError::FreeExceedsTotal { index: 4 })
    ));
}
