use std::str::FromStr;

use barter_instrument::exchange::ExchangeId;

use barter_python::balance::{
    balance_new, initial_balance, parse_exchange_identifier, Balance, BalanceError,
    InitialBalanceError,
};
use barter_python::decimal::{dec_le, Dec};
use barter_python::exchange::{parse_exchange_id, Exchange, ExchangeIdError};
use barter_python::instrument::{
    check_spec_quantity, InstrumentSpecNotional, InstrumentSpecPrice, SpecError,
};
use barter_python::order::{
    build_close_position_request, ensure_positive, select_client_order_id,
    ConflictingClientOrderIds, OrderKey, OrderKind, OrderRequestError, OrderRequestOpen,
    OrderSnapshot, OrderSnapshotError, OrderState, RequestOpen, TimeInForce, OrderLabelError,
    parse_order_kind, parse_time_in_force,
};
use barter_python::order::{
    build_ioc_market_order_to_close_position, close_position_client_order_id, decimal_text,
    CloseOrderError,
};
use barter_python::parse::Side;
use barter_python::sequence::Sequence;

fn dec(text: &str) -> Dec {
    let u = rust_decimal::Decimal::from_str(text).unwrap().unpack();
    Dec { lo: u.lo, mid: u.mid, hi: u.hi, negative: u.negative, scale: u.scale }
}

fn neg_zero() -> Dec {
    let mut d = rust_decimal::Decimal::ZERO;
    d.set_sign_negative(true);
    let u = d.unpack();
    Dec { lo: u.lo, mid: u.mid, hi: u.hi, negative: u.negative, scale: u.scale }
}

fn to_decimal(d: Dec) -> rust_decimal::Decimal {
    let mut x = rust_decimal::Decimal::from_parts(d.lo, d.mid, d.hi, d.negative, d.scale);
    x.set_sign_negative(d.negative);
    x
}

#[test]
fn sequence_wrapper_advances_like_rust() {
    let mut sequence = Sequence(10);
    assert_eq!(sequence.value(), 10);

    let previous = sequence.fetch_add();
    assert_eq!(previous.value(), 10);
    assert_eq!(sequence.value(), 11);

    let next_value = sequence.next_value();
    assert_eq!(next_value, 12);
    assert_eq!(sequence.value(), 12);
    assert!(previous.lt(&sequence));
    assert!(sequence.le(&sequence));
}

#[test]
fn decimal_comparison_is_numeric() {
    assert!(dec_le(&dec("1.0"), &dec("1")));
    assert!(dec_le(&dec("1"), &dec("1.00")));
    assert!(!dec_le(&dec("2"), &dec("1.999")));
    assert!(dec_le(&neg_zero(), &dec("0")));
    assert!(dec_le(&dec("0"), &neg_zero()));
    assert!(dec_le(&dec("-5"), &dec("-4.9")));
    assert!(dec("0").is_non_positive());
    assert!(neg_zero().is_non_positive());
    assert!(!dec("0.000001").is_non_positive());
    assert!(neg_zero().is_sign_negative());
    assert!(neg_zero().is_zero());
}

#[test]
fn balance_validation() {
    let b = balance_new(dec("10"), dec("4")).unwrap();
    assert_eq!(b, Balance { total: dec("10"), free: dec("4") });
    assert_eq!(to_decimal(b.used()), rust_decimal::Decimal::from_str("6").unwrap());
    assert_eq!(to_decimal(balance_new(dec("1.5"), dec("0.25")).unwrap().used()), rust_decimal::Decimal::from_str("1.25").unwrap());
    assert_eq!(balance_new(dec("-1"), dec("-2")), Err(BalanceError::TotalNegative));
    assert_eq!(balance_new(neg_zero(), dec("0")), Err(BalanceError::TotalNegative));
    assert_eq!(balance_new(dec("1"), neg_zero()), Err(BalanceError::FreeNegative));
    assert_eq!(balance_new(dec("1"), dec("1.01")), Err(BalanceError::FreeExceedsTotal));
    assert!(balance_new(dec("1"), dec("1.000")).is_ok());
}

#[test]
fn initial_balance_defaults_free_to_total() {
    let b = initial_balance(0, dec("4321.5"), None).unwrap();
    assert_eq!(b, Balance { total: dec("4321.5"), free: dec("4321.5") });
    let b = initial_balance(1, dec("4321.5"), Some(dec("2100.25"))).unwrap();
    assert_eq!(b.free, dec("2100.25"));
    match initial_balance(3, dec("1"), Some(dec("2"))).unwrap_err() {
        InitialBalanceError::FreeExceedsTotal { index } => assert_eq!(index, 3),
        other => panic!("unexpected error: {other:?}"),
    }
}

#[test]
fn exchange_identifier_parsing() {
    assert_eq!(parse_exchange_identifier(0, "binance_spot").unwrap(), Exchange::BinanceSpot);
    assert_eq!(parse_exchange_identifier(0, "  Binance_Spot\t").unwrap(), Exchange::BinanceSpot);
    assert_eq!(parse_exchange_identifier(1, "MOCK").unwrap(), Exchange::Mock);
    assert_eq!(parse_exchange_identifier(1, "huobi").unwrap(), Exchange::Htx);
    match parse_exchange_identifier(2, "   ").unwrap_err() {
        InitialBalanceError::EmptyExchange { index } => assert_eq!(index, 2),
        other => panic!("unexpected error: {other:?}"),
    }
    match parse_exchange_identifier(4, " nowhere ").unwrap_err() {
        InitialBalanceError::UnknownExchange { index, raw } => {
            assert_eq!(index, 4);
            assert_eq!(raw, " nowhere ");
        }
        other => panic!("unexpected error: {other:?}"),
    }
}

#[test]
fn close_position_request_is_opposite_ioc_market_order() {
    let req = build_close_position_request(
        0,
        1,
        Side::Buy,
        dec("100"),
        dec("51000"),
        "close-positions".to_string(),
        "close-1".to_string(),
    )
    .unwrap();
    assert_eq!(req.state.side, Side::Sell);
    assert_eq!(req.state.kind, OrderKind::Market);
    assert_eq!(req.state.time_in_force, TimeInForce::ImmediateOrCancel);
    assert_eq!(req.state.quantity, dec("100"));
    assert_eq!(req.state.price, dec("51000"));
    assert_eq!(req.key.instrument, 1);
    assert_eq!(req.key.cid, "close-1");
    assert_eq!(req.side(), "sell");
    assert_eq!(req.kind(), "market");
    assert_eq!(req.time_in_force(), "immediate_or_cancel");

    let req = build_close_position_request(
        0, 2, Side::Sell, dec("50"), dec("29500"), "s".to_string(), "c".to_string(),
    )
    .unwrap();
    assert_eq!(req.state.side, Side::Buy);
    assert_eq!(req.side(), "buy");

    assert_eq!(
        build_close_position_request(0, 1, Side::Buy, dec("0"), dec("1"), "s".to_string(), "c".to_string()),
        Err(OrderRequestError::NonPositive { field: "quantity" })
    );
    assert_eq!(ensure_positive(&dec("-2"), "price"), Err(OrderRequestError::NonPositive { field: "price" }));
    assert_eq!(ensure_positive(&dec("0.01"), "price"), Ok(()));
}

#[test]
fn instrument_spec_validation_follows_sign_flags() {
    assert_eq!(
        InstrumentSpecPrice::new(dec("0"), dec("0.01")),
        Ok(InstrumentSpecPrice { min: dec("0"), tick_size: dec("0.01") })
    );
    assert_eq!(InstrumentSpecPrice::new(dec("-1"), dec("0.01")), Err(SpecError::Negative { field: "min" }));
    assert_eq!(InstrumentSpecPrice::new(neg_zero(), dec("0.01")), Err(SpecError::Negative { field: "min" }));
    assert_eq!(InstrumentSpecPrice::new(dec("1"), dec("-0.01")), Err(SpecError::NotPositive { field: "tick_size" }));
    // a positive zero carries a positive sign
    assert!(InstrumentSpecPrice::new(dec("1"), dec("0")).is_ok());
    assert_eq!(check_spec_quantity(&dec("0"), &dec("1")), Ok(()));
    assert_eq!(check_spec_quantity(&dec("0"), &neg_zero()), Err(SpecError::NotPositive { field: "increment" }));
    assert_eq!(check_spec_quantity(&dec("-0.5"), &dec("1")), Err(SpecError::Negative { field: "min" }));
    assert_eq!(InstrumentSpecNotional::new(dec("10")), Ok(InstrumentSpecNotional { min: dec("10") }));
    assert_eq!(InstrumentSpecNotional::new(dec("-10")), Err(SpecError::NotPositive { field: "min" }));
}

#[test]
fn client_order_id_may_be_given_under_one_name_only() {
    assert_eq!(select_client_order_id(Some("a"), None), Ok(Some("a")));
    assert_eq!(select_client_order_id(None, Some("b")), Ok(Some("b")));
    assert_eq!(select_client_order_id::<&str>(None, None), Ok(None));
    assert_eq!(select_client_order_id(Some("a"), Some("b")), Err(ConflictingClientOrderIds));
}

fn limit_buy(quantity: &str) -> OrderRequestOpen {
    OrderRequestOpen {
        key: OrderKey {
            exchange: 0,
            instrument: 3,
            strategy: "strategy-alpha".to_string(),
            cid: "cid-1".to_string(),
        },
        state: RequestOpen {
            side: Side::Buy,
            price: dec("101.5"),
            quantity: dec(quantity),
            kind: OrderKind::Limit,
            time_in_force: TimeInForce::GoodUntilCancelled { post_only: true },
        },
    }
}

fn at(seconds: i64) -> chrono::DateTime<chrono::Utc> {
    chrono::DateTime::from_timestamp(seconds, 0).unwrap()
}

#[test]
fn snapshot_without_order_id_is_in_flight() {
    let snap = OrderSnapshot::<chrono::DateTime<chrono::Utc>>::from_open_request(
        limit_buy("2"),
        None,
        None,
        Some(dec("0")),
        true,
    )
    .unwrap();
    assert_eq!(snap.state, OrderState::OpenInFlight);
    assert_eq!(snap.quantity, dec("2"));
    assert_eq!(snap.price, dec("101.5"));
    assert_eq!(snap.side, Side::Buy);
    assert_eq!(snap.key.cid, "cid-1");
    assert_eq!(
        OrderSnapshot::<chrono::DateTime<chrono::Utc>>::from_open_request(
            limit_buy("2"),
            None,
            None,
            Some(dec("0.5")),
            false,
        ),
        Err(OrderSnapshotError::FilledWithoutOrderId)
    );
}

#[test]
fn snapshot_with_order_id_is_open() {
    let snap = OrderSnapshot::from_open_request(
        limit_buy("2"),
        Some("order-9".to_string()),
        Some(at(1_700_000_000)),
        Some(dec("0.5")),
        false,
    )
    .unwrap();
    assert_eq!(
        snap.state,
        OrderState::Open {
            id: "order-9".to_string(),
            time_exchange: at(1_700_000_000),
            filled: dec("0.5"),
        }
    );
    // filling the whole quantity is allowed
    assert!(OrderSnapshot::from_open_request(
        limit_buy("2"),
        Some("o".to_string()),
        Some(at(0)),
        Some(dec("2.00")),
        false,
    )
    .is_ok());
}

#[test]
fn snapshot_refusals() {
    let open = |filled: Option<Dec>| {
        OrderSnapshot::from_open_request(
            limit_buy("2"),
            Some("o".to_string()),
            Some(at(0)),
            filled,
            false,
        )
    };
    assert_eq!(open(None), Err(OrderSnapshotError::FilledNotFinite));
    assert_eq!(open(Some(dec("-0.1"))), Err(OrderSnapshotError::FilledNegative));
    assert_eq!(open(Some(neg_zero())), Err(OrderSnapshotError::FilledNegative));
    assert_eq!(open(Some(dec("2.0001"))), Err(OrderSnapshotError::FilledExceedsQuantity));
    assert_eq!(
        OrderSnapshot::<chrono::DateTime<chrono::Utc>>::from_open_request(
            limit_buy("2"),
            Some("o".to_string()),
            None,
            Some(dec("0")),
            true,
        ),
        Err(OrderSnapshotError::MissingTimeExchange)
    );
    assert_eq!(
        OrderSnapshot::from_open_request(limit_buy("2"), None, Some(at(0)), Some(dec("0")), true),
        Err(OrderSnapshotError::MissingOrderId)
    );
}

#[test]
fn order_kind_labels() {
    assert_eq!(parse_order_kind(None), Ok(OrderKind::Limit));
    assert_eq!(parse_order_kind(Some("MARKET")), Ok(OrderKind::Market));
    assert_eq!(parse_order_kind(Some("limit")), Ok(OrderKind::Limit));
    match parse_order_kind(Some("Stop")) {
        Err(OrderLabelError::UnknownOrderKind { lowered }) => {
            assert_eq!(lowered.iter().collect::<String>(), "stop")
        }
        other => panic!("unexpected result: {other:?}"),
    }
}

#[test]
fn time_in_force_labels() {
    assert_eq!(
        parse_time_in_force(None, None),
        Ok(TimeInForce::GoodUntilCancelled { post_only: false })
    );
    assert_eq!(
        parse_time_in_force(None, Some(true)),
        Ok(TimeInForce::GoodUntilCancelled { post_only: true })
    );
    assert_eq!(
        parse_time_in_force(Some("Good_Until_Cancelled"), Some(true)),
        Ok(TimeInForce::GoodUntilCancelled { post_only: true })
    );
    assert_eq!(parse_time_in_force(Some("fill_or_kill"), None), Ok(TimeInForce::FillOrKill));
    assert_eq!(
        parse_time_in_force(Some("immediate_or_cancel"), Some(true)),
        Ok(TimeInForce::ImmediateOrCancel)
    );
    assert_eq!(
        parse_time_in_force(Some("good_until_end_of_day"), None),
        Ok(TimeInForce::GoodUntilEndOfDay)
    );
    assert!(matches!(
        parse_time_in_force(Some("gtc"), None),
        Err(OrderLabelError::UnknownTimeInForce { .. })
    ));
}

#[test]
fn reported_labels_parse_back() {
    let req = limit_buy("1");
    assert_eq!(parse_order_kind(Some(req.kind())), Ok(req.state.kind));
    assert_eq!(parse_time_in_force(Some(req.time_in_force()), Some(true)), Ok(req.state.time_in_force));
}

#[test]
fn exchange_ids_are_looked_up_by_trimmed_lowered_label() {
    assert_eq!(parse_exchange_id("binance_spot").unwrap(), Exchange::BinanceSpot);
    assert_eq!(parse_exchange_id("  Kraken ").unwrap(), Exchange::Kraken);
    assert_eq!(parse_exchange_id("Huobi").unwrap(), Exchange::Htx);
    assert_eq!(parse_exchange_id("coinbase_international").unwrap(), Exchange::CoinbaseInternational);
    assert!(matches!(parse_exchange_id(" \t "), Err(ExchangeIdError::Empty)));
    match parse_exchange_id(" not_an_exchange ") {
        Err(ExchangeIdError::Unknown { trimmed }) => assert_eq!(trimmed, "not_an_exchange"),
        other => panic!("unexpected result: {other:?}"),
    }
}

#[test]
fn used_amount_keeps_the_common_scale() {
    let b = balance_new(dec("10.50"), dec("2.25")).unwrap();
    let used = b.used();
    assert_eq!(used.scale, 2);
    assert_eq!(to_decimal(used), rust_decimal::Decimal::from_str("8.25").unwrap());
    let whole = balance_new(dec("7"), dec("7")).unwrap();
    assert_eq!(to_decimal(whole.used()), rust_decimal::Decimal::ZERO);
}

#[test]
fn exchanges_follow_exchange_id_variant_for_variant() {
    for i in 0u8..42 {
        let exchange = Exchange::from_index(i).unwrap();
        let id: ExchangeId =
            serde_json::from_value(serde_json::Value::String(exchange.as_str().to_string())).unwrap();
        assert_eq!(id as u8, i);
        assert_eq!(id.as_str(), exchange.as_str());
        assert_eq!(parse_exchange_id(exchange.as_str()).unwrap(), exchange);
        assert_eq!(parse_exchange_identifier(0, exchange.as_str()).unwrap(), exchange);
    }
    assert_eq!(Exchange::from_index(42), None);
}

#[test]
fn largest_balance_reports_its_used_amount() {
    let max = barter_python::balance::balance_new(
        {
            let u = rust_decimal::Decimal::MAX.unpack();
            Dec { lo: u.lo, mid: u.mid, hi: u.hi, negative: u.negative, scale: u.scale }
        },
        dec("0"),
    )
    .unwrap();
    assert_eq!(to_decimal(max.used()), rust_decimal::Decimal::MAX);
    let mixed = balance_new(dec("2"), dec("0.125")).unwrap();
    assert_eq!(to_decimal(mixed.used()), rust_decimal::Decimal::from_str("1.875").unwrap());
}

#[test]
fn close_position_order_defaults_its_client_order_id() {
    assert_eq!(close_position_client_order_id(0), "close-0");
    assert_eq!(close_position_client_order_id(1207), "close-1207");

    let req = build_ioc_market_order_to_close_position(
        1, 42, "buy", Some(dec("3")), "s".to_string(), Some(dec("100")), None,
    )
    .unwrap();
    assert_eq!(req.key.cid, "close-42");
    assert_eq!(req.key.exchange, 1);
    assert_eq!(req.state.side, Side::Sell);
    assert_eq!(req.state.time_in_force, TimeInForce::ImmediateOrCancel);

    let req = build_ioc_market_order_to_close_position(
        1, 42, "S", Some(dec("3")), "s".to_string(), Some(dec("100")), Some("mine".to_string()),
    )
    .unwrap();
    assert_eq!(req.key.cid, "mine");
    assert_eq!(req.state.side, Side::Buy);

    assert!(matches!(
        build_ioc_market_order_to_close_position(1, 2, "hold", Some(dec("3")), "s".to_string(), Some(dec("1")), None),
        Err(CloseOrderError::Parse(barter_python::parse::ParseError::InvalidSide { .. }))
    ));
    assert!(matches!(
        build_ioc_market_order_to_close_position(1, 2, "buy", Some(dec("3")), "s".to_string(), Some(dec("1")), Some(" ".to_string())),
        Err(CloseOrderError::Parse(barter_python::parse::ParseError::Blank { label: "client order id" }))
    ));
    assert!(matches!(
        build_ioc_market_order_to_close_position(1, 2, "buy", Some(dec("3")), "s".to_string(), None, None),
        Err(CloseOrderError::NotFinite { field: "price" })
    ));
    assert!(matches!(
        build_ioc_market_order_to_close_position(1, 2, "buy", None, "s".to_string(), Some(dec("1")), None),
        Err(CloseOrderError::NotFinite { field: "quantity" })
    ));
    assert!(matches!(
        build_ioc_market_order_to_close_position(1, 2, "buy", Some(dec("0")), "s".to_string(), Some(dec("1")), None),
        Err(CloseOrderError::Request(OrderRequestError::NonPositive { field: "quantity" }))
    ));
}

#[test]
fn decimals_compare_by_value() {
    assert_eq!(dec("1.0"), dec("1"));
    assert_eq!(neg_zero(), dec("0.00"));
    assert_ne!(dec("1.01"), dec("1"));
    assert_ne!(dec("-1"), dec("1"));
    assert_eq!(
        Balance { total: dec("2.50"), free: dec("1") },
        Balance { total: dec("2.5"), free: dec("1.000") }
    );
    let wide = Dec { lo: 1, mid: 0, hi: 0, negative: false, scale: 29 };
    assert_eq!(wide, wide);
    assert_ne!(wide, Dec { lo: 10, mid: 0, hi: 0, negative: false, scale: 30 });
}

#[test]
fn decimal_text_matches_std() {
    for n in [0usize, 7, 9, 10, 42, 100, 1207, 99999, usize::MAX] {
        assert_eq!(decimal_text(n), n.to_string());
    }
}
