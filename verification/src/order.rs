//! Order requests, and the market order that closes an open position.
use vstd::prelude::*;

use crate::decimal::{Dec, dec_lt, dec_lt_spec};
use crate::parse::{ParseError, Side, closing_side, ensure_non_empty, lowered, parse_side, side_of};
use crate::text::{eq_literal, lower, trim};
use vstd::string::{StringExecFns, StrSliceExecFns};

verus! {

/// Kind of order: executed at the market price or resting at a limit price.
#[derive(Clone, Copy, Debug, PartialEq, Eq)]
pub enum OrderKind {
    Market,
    Limit,
}

/// How long an order stays active.
#[derive(Clone, Copy, Debug, PartialEq, Eq)]
pub enum TimeInForce {
    GoodUntilCancelled { post_only: bool },
    GoodUntilEndOfDay,
    FillOrKill,
    ImmediateOrCancel,
}

/// Identifies an order: exchange and instrument indices, strategy and client order id.
#[derive(Clone, Debug, PartialEq, Eq)]
pub struct OrderKey {
    pub exchange: usize,
    pub instrument: usize,
    pub strategy: String,
    pub cid: String,
}

/// The request-specific part of an order to open.
#[derive(Clone, Copy, Debug, PartialEq, Eq)]
pub struct RequestOpen {
    pub side: Side,
    pub price: Dec,
    pub quantity: Dec,
    pub kind: OrderKind,
    pub time_in_force: TimeInForce,
}

/// A request to open an order.
#[derive(Clone, Debug, PartialEq, Eq)]
pub struct OrderRequestOpen {
    pub key: OrderKey,
    pub state: RequestOpen,
}

/// Why an order request is refused.
#[derive(Clone, Copy, Debug, PartialEq, Eq)]
pub enum OrderRequestError {
    /// The named quantity must be strictly positive.
    NonPositive { field: &'static str },
}

/// The client order id argument was given under both of its names.
#[derive(Clone, Copy, Debug, PartialEq, Eq)]
pub struct ConflictingClientOrderIds;

/// The client order id given under either of its two names, `cid` or
/// `client_order_id`; giving both is refused, giving neither yields none.
pub fn select_client_order_id<T>(cid: Option<T>, client_order_id: Option<T>) -> (r: Result<
    Option<T>,
    ConflictingClientOrderIds,
>)
    ensures
        cid is Some && client_order_id is Some ==> r is Err,
        cid is None ==> r == Ok::<Option<T>, ConflictingClientOrderIds>(client_order_id),
        client_order_id is None ==> r == Ok::<Option<T>, ConflictingClientOrderIds>(cid),
{
    match (cid, client_order_id) {
        (Some(_), Some(_)) => Err(ConflictingClientOrderIds),
        (Some(c), None) => Ok(Some(c)),
        (None, other) => Ok(other),
    }
}

/// Check that `value` is strictly positive.
pub fn ensure_positive(value: &Dec, field: &'static str) -> (r: Result<(), OrderRequestError>)
    ensures
        value.num() <= 0 ==> r == Err::<(), OrderRequestError>(
            OrderRequestError::NonPositive { field },
        ),
        value.num() > 0 ==> r is Ok,
{
    if value.is_non_positive() {
        Err(OrderRequestError::NonPositive { field })
    } else {
        Ok(())
    }
}

/// The immediate-or-cancel market order that closes a position held on
/// `position_side`: it trades on the opposite side, for a strictly positive quantity.
pub fn build_close_position_request(
    exchange: usize,
    instrument: usize,
    position_side: Side,
    quantity: Dec,
    price: Dec,
    strategy: String,
    cid: String,
) -> (r: Result<OrderRequestOpen, OrderRequestError>)
    ensures
        quantity.num() <= 0 ==> r == Err::<OrderRequestOpen, OrderRequestError>(
            OrderRequestError::NonPositive { field: "quantity" },
        ),
        quantity.num() > 0 ==> (r matches Ok(req) && req == (OrderRequestOpen {
            key: OrderKey { exchange, instrument, strategy, cid },
            state: RequestOpen {
                side: if position_side == Side::Buy {
                    Side::Sell
                } else {
                    Side::Buy
                },
                price,
                quantity,
                kind: OrderKind::Market,
                time_in_force: TimeInForce::ImmediateOrCancel,
            },
        })),
{
    if let Err(e) = ensure_positive(&quantity, "quantity") {
        return Err(e);
    }
    Ok(
        OrderRequestOpen {
            key: OrderKey { exchange, instrument, strategy, cid },
            state: RequestOpen {
                side: closing_side(position_side),
                price,
                quantity,
                kind: OrderKind::Market,
                time_in_force: TimeInForce::ImmediateOrCancel,
            },
        },
    )
}

/// The label of an order kind.
pub open spec fn kind_label(kind: OrderKind) -> Seq<char> {
    match kind {
        OrderKind::Market => "market"@,
        OrderKind::Limit => "limit"@,
    }
}

/// The label of a time in force.
pub open spec fn time_in_force_label(tif: TimeInForce) -> Seq<char> {
    match tif {
        TimeInForce::GoodUntilCancelled { .. } => "good_until_cancelled"@,
        TimeInForce::GoodUntilEndOfDay => "good_until_end_of_day"@,
        TimeInForce::FillOrKill => "fill_or_kill"@,
        TimeInForce::ImmediateOrCancel => "immediate_or_cancel"@,
    }
}

/// The post-only flag of a time in force; only good-until-cancelled orders carry one.
pub open spec fn post_only_of(tif: TimeInForce) -> bool {
    match tif {
        TimeInForce::GoodUntilCancelled { post_only } => post_only,
        _ => false,
    }
}

/// An order kind or time in force label that names none; holds the lowered label.
#[derive(Clone, Debug, PartialEq, Eq)]
pub enum OrderLabelError {
    UnknownOrderKind { lowered: Vec<char> },
    UnknownTimeInForce { lowered: Vec<char> },
}

/// The order kind that a label names once ASCII-lowered.
pub open spec fn order_kind_of(label: Seq<char>) -> Option<OrderKind> {
    let n = lower(label);
    if n == "market"@ {
        Some(OrderKind::Market)
    } else if n == "limit"@ {
        Some(OrderKind::Limit)
    } else {
        None
    }
}

/// The time in force that a label names once ASCII-lowered, with the given
/// post-only flag for a good-until-cancelled order.
pub open spec fn time_in_force_of(label: Seq<char>, post_only: bool) -> Option<TimeInForce> {
    let n = lower(label);
    if n == "good_until_cancelled"@ {
        Some(TimeInForce::GoodUntilCancelled { post_only })
    } else if n == "good_until_end_of_day"@ {
        Some(TimeInForce::GoodUntilEndOfDay)
    } else if n == "fill_or_kill"@ {
        Some(TimeInForce::FillOrKill)
    } else if n == "immediate_or_cancel"@ {
        Some(TimeInForce::ImmediateOrCancel)
    } else {
        None
    }
}

/// Parse an optional order kind label; none given means a limit order.
pub fn parse_order_kind(label: Option<&str>) -> (r: Result<OrderKind, OrderLabelError>)
    ensures
        match label {
            None => r == Ok::<OrderKind, OrderLabelError>(OrderKind::Limit),
            Some(l) => match order_kind_of(l@) {
                Some(k) => r == Ok::<OrderKind, OrderLabelError>(k),
                None => r matches Err(OrderLabelError::UnknownOrderKind { lowered: n }) && n@
                    == lower(l@),
            },
        },
{
    match label {
        None => Ok(OrderKind::Limit),
        Some(l) => {
            let n = lowered(l);
            if eq_literal(&n, "market") {
                Ok(OrderKind::Market)
            } else if eq_literal(&n, "limit") {
                Ok(OrderKind::Limit)
            } else {
                Err(OrderLabelError::UnknownOrderKind { lowered: n })
            }
        },
    }
}

/// Parse an optional time in force label; none given means good until
/// cancelled. The post-only flag, false when not given, applies to a
/// good-until-cancelled order.
pub fn parse_time_in_force(label: Option<&str>, post_only: Option<bool>) -> (r: Result<
    TimeInForce,
    OrderLabelError,
>)
    ensures
        ({
            let flag = match post_only {
                Some(b) => b,
                None => false,
            };
            match label {
                None => r == Ok::<TimeInForce, OrderLabelError>(
                    TimeInForce::GoodUntilCancelled { post_only: flag },
                ),
                Some(l) => match time_in_force_of(l@, flag) {
                    Some(t) => r == Ok::<TimeInForce, OrderLabelError>(t),
                    None => r matches Err(OrderLabelError::UnknownTimeInForce { lowered: n })
                        && n@ == lower(l@),
                },
            }
        }),
{
    let flag = match post_only {
        Some(b) => b,
        None => false,
    };
    match label {
        None => Ok(TimeInForce::GoodUntilCancelled { post_only: flag }),
        Some(l) => {
            let n = lowered(l);
            if eq_literal(&n, "good_until_cancelled") {
                Ok(TimeInForce::GoodUntilCancelled { post_only: flag })
            } else if eq_literal(&n, "good_until_end_of_day") {
                Ok(TimeInForce::GoodUntilEndOfDay)
            } else if eq_literal(&n, "fill_or_kill") {
                Ok(TimeInForce::FillOrKill)
            } else if eq_literal(&n, "immediate_or_cancel") {
                Ok(TimeInForce::ImmediateOrCancel)
            } else {
                Err(OrderLabelError::UnknownTimeInForce { lowered: n })
            }
        },
    }
}

/// The decimal digits of `n`, most significant first, without leading zeros.
pub open spec fn decimal_digits(n: nat) -> Seq<char>
    decreases n,
{
    if n < 10 {
        seq![(48 + n) as char]
    } else {
        decimal_digits(n / 10).push((48 + n % 10) as char)
    }
}

/// The decimal digit `d` as text.
fn digit_text(d: usize) -> (r: &'static str)
    requires
        d < 10,
    ensures
        r@ == seq![(48 + d) as char],
{
    match d {
        0 => {
            proof {
                reveal_strlit("0");
            }
            "0"
        },
        1 => {
            proof {
                reveal_strlit("1");
            }
            "1"
        },
        2 => {
            proof {
                reveal_strlit("2");
            }
            "2"
        },
        3 => {
            proof {
                reveal_strlit("3");
            }
            "3"
        },
        4 => {
            proof {
                reveal_strlit("4");
            }
            "4"
        },
        5 => {
            proof {
                reveal_strlit("5");
            }
            "5"
        },
        6 => {
            proof {
                reveal_strlit("6");
            }
            "6"
        },
        7 => {
            proof {
                reveal_strlit("7");
            }
            "7"
        },
        8 => {
            proof {
                reveal_strlit("8");
            }
            "8"
        },
        _ => {
            proof {
                reveal_strlit("9");
            }
            "9"
        },
    }
}

/// `n` written in decimal digits, most significant first, without leading zeros.
pub fn decimal_text(n: usize) -> (r: String)
    ensures
        r@ == decimal_digits(n as nat),
    decreases n,
{
    if n < 10 {
        String::from_str(digit_text(n))
    } else {
        let head = decimal_text(n / 10);
        head.concat(digit_text(n % 10))
    }
}

/// The client order id of a close-position order for which none is given.
pub open spec fn close_position_cid(instrument: usize) -> Seq<char> {
    "close-"@ + decimal_digits(instrument as nat)
}

/// The client order id of a close-position order for which none is given:
/// `close-` followed by the instrument index.
pub fn close_position_client_order_id(instrument: usize) -> (r: String)
    ensures
        r@ == close_position_cid(instrument),
{
    let digits = decimal_text(instrument);
    String::from_str("close-").concat(digits.as_str())
}

/// Why a close-position order cannot be built.
#[derive(Debug)]
pub enum CloseOrderError {
    /// The side or the client order id is refused.
    Parse(ParseError),
    /// The named amount is not a finite number.
    NotFinite { field: &'static str },
    /// The request is refused.
    Request(OrderRequestError),
}

/// The immediate-or-cancel market order that closes a position held on the
/// side that `side` names, for `quantity` at `price` (each absent when it is
/// not a finite number). The client order id defaults to `close-` and the
/// instrument index. Checked in turn: the side, the client order id (not
/// blank), the price, the quantity (finite, then strictly positive).
pub fn build_ioc_market_order_to_close_position(
    exchange: usize,
    instrument: usize,
    side: &str,
    quantity: Option<Dec>,
    strategy: String,
    price: Option<Dec>,
    client_order_id: Option<String>,
) -> (r: Result<OrderRequestOpen, CloseOrderError>)
    ensures
        match side_of(side@) {
            None => r matches Err(CloseOrderError::Parse(ParseError::InvalidSide { lowered: n }))
                && n@ == lower(side@),
            Some(position_side) => if client_order_id matches Some(c) && trim(c@).len() == 0 {
                r matches Err(CloseOrderError::Parse(ParseError::Blank { label: l }))
                    && l == "client order id"
            } else if price is None {
                r matches Err(CloseOrderError::NotFinite { field: f }) && f == "price"
            } else if quantity is None {
                r matches Err(CloseOrderError::NotFinite { field: f }) && f == "quantity"
            } else if quantity->0.num() <= 0 {
                r matches Err(CloseOrderError::Request(OrderRequestError::NonPositive { field: f }))
                    && f == "quantity"
            } else {
                r matches Ok(req) && req.key.exchange == exchange && req.key.instrument
                    == instrument && req.key.strategy == strategy && req.key.cid@ == (
                match client_order_id {
                    Some(c) => c@,
                    None => close_position_cid(instrument),
                }) && req.state == (RequestOpen {
                    side: if position_side == Side::Buy {
                        Side::Sell
                    } else {
                        Side::Buy
                    },
                    price: price->0,
                    quantity: quantity->0,
                    kind: OrderKind::Market,
                    time_in_force: TimeInForce::ImmediateOrCancel,
                })
            },
        },
{
    let position_side = match parse_side(side) {
        Ok(s) => s,
        Err(e) => return Err(CloseOrderError::Parse(e)),
    };
    let cid = match client_order_id {
        Some(c) => {
            match ensure_non_empty(c.as_str(), "client order id") {
                Err(e) => return Err(CloseOrderError::Parse(e)),
                Ok(()) => c,
            }
        },
        None => close_position_client_order_id(instrument),
    };
    let p = match price {
        Some(p) => p,
        None => return Err(CloseOrderError::NotFinite { field: "price" }),
    };
    let q = match quantity {
        Some(q) => q,
        None => return Err(CloseOrderError::NotFinite { field: "quantity" }),
    };
    match build_close_position_request(exchange, instrument, position_side, q, p, strategy, cid) {
        Ok(req) => Ok(req),
        Err(e) => Err(CloseOrderError::Request(e)),
    }
}

impl OrderRequestOpen {
    /// The side as text: `buy` or `sell`.
    pub fn side(&self) -> (r: &'static str)
        ensures
            self.state.side == Side::Buy ==> r@ == "buy"@,
            self.state.side == Side::Sell ==> r@ == "sell"@,
    {
        match self.state.side {
            Side::Buy => "buy",
            Side::Sell => "sell",
        }
    }

    /// The order kind as text: `market` or `limit`.
    pub fn kind(&self) -> (r: &'static str)
        ensures
            r@ == kind_label(self.state.kind),
    {
        match self.state.kind {
            OrderKind::Market => "market",
            OrderKind::Limit => "limit",
        }
    }

    /// The time in force as text.
    pub fn time_in_force(&self) -> (r: &'static str)
        ensures
            r@ == time_in_force_label(self.state.time_in_force),
    {
        match self.state.time_in_force {
            TimeInForce::GoodUntilCancelled { .. } => "good_until_cancelled",
            TimeInForce::GoodUntilEndOfDay => "good_until_end_of_day",
            TimeInForce::FillOrKill => "fill_or_kill",
            TimeInForce::ImmediateOrCancel => "immediate_or_cancel",
        }
    }
}

/// The label an order kind is reported with parses back to that kind.
pub proof fn law_kind_label_parses_back(kind: OrderKind)
    ensures
        order_kind_of(kind_label(kind)) == Some(kind),
{
    reveal_strlit("market");
    reveal_strlit("limit");
    match kind {
        OrderKind::Market => {
            assert(lower("market"@) =~= "market"@);
        },
        OrderKind::Limit => {
            assert(lower("limit"@) =~= "limit"@);
            assert("limit"@ != "market"@);
        },
    }
}

/// The label a time in force is reported with, together with its post-only
/// flag, parses back to that time in force.
pub proof fn law_time_in_force_label_parses_back(tif: TimeInForce)
    ensures
        time_in_force_of(time_in_force_label(tif), post_only_of(tif)) == Some(tif),
{
    reveal_strlit("good_until_cancelled");
    reveal_strlit("good_until_end_of_day");
    reveal_strlit("fill_or_kill");
    reveal_strlit("immediate_or_cancel");
    match tif {
        TimeInForce::GoodUntilCancelled { .. } => {
            assert(lower("good_until_cancelled"@) =~= "good_until_cancelled"@);
        },
        TimeInForce::GoodUntilEndOfDay => {
            assert(lower("good_until_end_of_day"@) =~= "good_until_end_of_day"@);
            assert("good_until_end_of_day"@ != "good_until_cancelled"@) by {
                assert("good_until_end_of_day"@.len() != "good_until_cancelled"@.len());
            }
        },
        TimeInForce::FillOrKill => {
            assert(lower("fill_or_kill"@) =~= "fill_or_kill"@);
            assert("fill_or_kill"@ != "good_until_cancelled"@) by {
                assert("fill_or_kill"@[0] != "good_until_cancelled"@[0]);
            }
            assert("fill_or_kill"@ != "good_until_end_of_day"@) by {
                assert("fill_or_kill"@[0] != "good_until_end_of_day"@[0]);
            }
        },
        TimeInForce::ImmediateOrCancel => {
            assert(lower("immediate_or_cancel"@) =~= "immediate_or_cancel"@);
            assert("immediate_or_cancel"@ != "good_until_cancelled"@) by {
                assert("immediate_or_cancel"@[0] != "good_until_cancelled"@[0]);
            }
            assert("immediate_or_cancel"@ != "good_until_end_of_day"@) by {
                assert("immediate_or_cancel"@[0] != "good_until_end_of_day"@[0]);
            }
            assert("immediate_or_cancel"@ != "fill_or_kill"@) by {
                assert("immediate_or_cancel"@[0] != "fill_or_kill"@[0]);
            }
        },
    }
}

/// Where an order stands; `T` is the type of exchange times.
#[derive(Clone, Debug, PartialEq, Eq)]
pub enum OrderState<T> {
    /// Sent to the exchange and not yet acknowledged.
    OpenInFlight,
    /// Open on the exchange under `id` since `time_exchange`, with `filled` already traded.
    Open { id: String, time_exchange: T, filled: Dec },
}

/// An order as known at one moment: its request and where it stands.
#[derive(Clone, Debug, PartialEq, Eq)]
pub struct OrderSnapshot<T> {
    pub key: OrderKey,
    pub side: Side,
    pub price: Dec,
    pub quantity: Dec,
    pub kind: OrderKind,
    pub time_in_force: TimeInForce,
    pub state: OrderState<T>,
}

/// Why an order snapshot cannot be built from a request.
#[derive(Clone, Copy, Debug, PartialEq, Eq)]
pub enum OrderSnapshotError {
    /// The filled quantity is not a finite number.
    FilledNotFinite,
    /// The filled quantity carries a negative sign.
    FilledNegative,
    /// The filled quantity is larger than the order quantity.
    FilledExceedsQuantity,
    /// An order id was given without the exchange time.
    MissingTimeExchange,
    /// An exchange time was given without the order id.
    MissingOrderId,
    /// A filled quantity other than zero was given without the order id.
    FilledWithoutOrderId,
}

/// The snapshot of `request` in `state`.
pub open spec fn snapshot_of<T>(request: OrderRequestOpen, state: OrderState<T>) -> OrderSnapshot<T> {
    OrderSnapshot {
        key: request.key,
        side: request.state.side,
        price: request.state.price,
        quantity: request.state.quantity,
        kind: request.state.kind,
        time_in_force: request.state.time_in_force,
        state,
    }
}

impl<T> OrderSnapshot<T> {
    /// Snapshot an order request. With an order id and an exchange time the
    /// order is open with `filled` already traded, which must be finite, carry
    /// no negative sign and not exceed the order quantity; with neither it is
    /// in flight, and `filled` must be zero. `filled` is the decimal value of
    /// the filled quantity when it has one, and `filled_is_zero` whether that
    /// quantity equals zero.
    pub fn from_open_request(
        request: OrderRequestOpen,
        order_id: Option<String>,
        time_exchange: Option<T>,
        filled: Option<Dec>,
        filled_is_zero: bool,
    ) -> (r: Result<OrderSnapshot<T>, OrderSnapshotError>)
        requires
            request.state.quantity.wf(),
            filled matches Some(f) ==> f.wf(),
        ensures
            match (order_id, time_exchange) {
                (Some(id), Some(t)) => match filled {
                    None => r == Err::<OrderSnapshot<T>, OrderSnapshotError>(
                        OrderSnapshotError::FilledNotFinite,
                    ),
                    Some(f) => if f.negative {
                        r == Err::<OrderSnapshot<T>, OrderSnapshotError>(
                            OrderSnapshotError::FilledNegative,
                        )
                    } else if dec_lt_spec(request.state.quantity, f) {
                        r == Err::<OrderSnapshot<T>, OrderSnapshotError>(
                            OrderSnapshotError::FilledExceedsQuantity,
                        )
                    } else {
                        r == Ok::<OrderSnapshot<T>, OrderSnapshotError>(
                            snapshot_of(
                                request,
                                OrderState::Open { id, time_exchange: t, filled: f },
                            ),
                        )
                    },
                },
                (Some(_), None) => r == Err::<OrderSnapshot<T>, OrderSnapshotError>(
                    OrderSnapshotError::MissingTimeExchange,
                ),
                (None, Some(_)) => r == Err::<OrderSnapshot<T>, OrderSnapshotError>(
                    OrderSnapshotError::MissingOrderId,
                ),
                (None, None) => if filled_is_zero {
                    r == Ok::<OrderSnapshot<T>, OrderSnapshotError>(
                        snapshot_of(request, OrderState::OpenInFlight),
                    )
                } else {
                    r == Err::<OrderSnapshot<T>, OrderSnapshotError>(
                        OrderSnapshotError::FilledWithoutOrderId,
                    )
                },
            },
    {
        let state = match (order_id, time_exchange) {
            (Some(id), Some(time)) => {
                let f = match filled {
                    Some(f) => f,
                    None => return Err(OrderSnapshotError::FilledNotFinite),
                };
                if f.is_sign_negative() {
                    return Err(OrderSnapshotError::FilledNegative);
                }
                if dec_lt(&request.state.quantity, &f) {
                    return Err(OrderSnapshotError::FilledExceedsQuantity);
                }
                OrderState::Open { id, time_exchange: time, filled: f }
            },
            (Some(_), None) => return Err(OrderSnapshotError::MissingTimeExchange),
            (None, Some(_)) => return Err(OrderSnapshotError::MissingOrderId),
            (None, None) => {
                if !filled_is_zero {
                    return Err(OrderSnapshotError::FilledWithoutOrderId);
                }
                OrderState::OpenInFlight
            },
        };
        Ok(
            OrderSnapshot {
                key: request.key,
                side: request.state.side,
                price: request.state.price,
                quantity: request.state.quantity,
                kind: request.state.kind,
                time_in_force: request.state.time_in_force,
                state,
            },
        )
    }
}

} // verus!
