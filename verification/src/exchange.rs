//! Exchanges, named by the snake_case labels under which serde reads and
//! writes `barter_instrument::exchange::ExchangeId`.
use vstd::prelude::*;

use barter_instrument::exchange::ExchangeId;

use crate::text::{chars_of, lower, lower_range, trim, trim_bounds};

verus! {

/// An exchange, one variant for each variant of `ExchangeId`, in the same order.
#[derive(Clone, Copy, Debug, PartialEq, Eq)]
pub enum Exchange {
    Other,
    Simulated,
    Mock,
    BinanceFuturesCoin,
    BinanceFuturesUsd,
    BinanceOptions,
    BinancePortfolioMargin,
    BinanceSpot,
    BinanceUs,
    Bitazza,
    Bitfinex,
    Bitflyer,
    Bitget,
    Bitmart,
    BitmartFuturesUsd,
    Bitmex,
    Bitso,
    Bitstamp,
    Bitvavo,
    Bithumb,
    BybitPerpetualsUsd,
    BybitSpot,
    Cexio,
    Coinbase,
    CoinbaseInternational,
    Cryptocom,
    Deribit,
    GateioFuturesBtc,
    GateioFuturesUsd,
    GateioOptions,
    GateioPerpetualsBtc,
    GateioPerpetualsUsd,
    GateioSpot,
    Gemini,
    Hitbtc,
    Htx,
    Kraken,
    Kucoin,
    Liquid,
    Mexc,
    Okx,
    Poloniex,
}

/// The label of an exchange.
pub open spec fn exchange_name(e: Exchange) -> Seq<char> {
    match e {
        Exchange::Other => "other"@,
        Exchange::Simulated => "simulated"@,
        Exchange::Mock => "mock"@,
        Exchange::BinanceFuturesCoin => "binance_futures_coin"@,
        Exchange::BinanceFuturesUsd => "binance_futures_usd"@,
        Exchange::BinanceOptions => "binance_options"@,
        Exchange::BinancePortfolioMargin => "binance_portfolio_margin"@,
        Exchange::BinanceSpot => "binance_spot"@,
        Exchange::BinanceUs => "binance_us"@,
        Exchange::Bitazza => "bitazza"@,
        Exchange::Bitfinex => "bitfinex"@,
        Exchange::Bitflyer => "bitflyer"@,
        Exchange::Bitget => "bitget"@,
        Exchange::Bitmart => "bitmart"@,
        Exchange::BitmartFuturesUsd => "bitmart_futures_usd"@,
        Exchange::Bitmex => "bitmex"@,
        Exchange::Bitso => "bitso"@,
        Exchange::Bitstamp => "bitstamp"@,
        Exchange::Bitvavo => "bitvavo"@,
        Exchange::Bithumb => "bithumb"@,
        Exchange::BybitPerpetualsUsd => "bybit_perpetuals_usd"@,
        Exchange::BybitSpot => "bybit_spot"@,
        Exchange::Cexio => "cexio"@,
        Exchange::Coinbase => "coinbase"@,
        Exchange::CoinbaseInternational => "coinbase_international"@,
        Exchange::Cryptocom => "cryptocom"@,
        Exchange::Deribit => "deribit"@,
        Exchange::GateioFuturesBtc => "gateio_futures_btc"@,
        Exchange::GateioFuturesUsd => "gateio_futures_usd"@,
        Exchange::GateioOptions => "gateio_options"@,
        Exchange::GateioPerpetualsBtc => "gateio_perpetuals_btc"@,
        Exchange::GateioPerpetualsUsd => "gateio_perpetuals_usd"@,
        Exchange::GateioSpot => "gateio_spot"@,
        Exchange::Gemini => "gemini"@,
        Exchange::Hitbtc => "hitbtc"@,
        Exchange::Htx => "htx"@,
        Exchange::Kraken => "kraken"@,
        Exchange::Kucoin => "kucoin"@,
        Exchange::Liquid => "liquid"@,
        Exchange::Mexc => "mexc"@,
        Exchange::Okx => "okx"@,
        Exchange::Poloniex => "poloniex"@,
    }
}

/// The exchange that a label names: the exchange of that label, or HTX for
/// its former name `huobi`.
pub open spec fn exchange_named(label: Seq<char>) -> Option<Exchange> {
    if label == "huobi"@ {
        Some(Exchange::Htx)
    } else if exists|e: Exchange| exchange_name(e) == label {
        Some(choose|e: Exchange| exchange_name(e) == label)
    } else {
        None
    }
}

/// The position of an exchange among the variants.
pub open spec fn exchange_index(e: Exchange) -> u8 {
    match e {
        Exchange::Other => 0,
        Exchange::Simulated => 1,
        Exchange::Mock => 2,
        Exchange::BinanceFuturesCoin => 3,
        Exchange::BinanceFuturesUsd => 4,
        Exchange::BinanceOptions => 5,
        Exchange::BinancePortfolioMargin => 6,
        Exchange::BinanceSpot => 7,
        Exchange::BinanceUs => 8,
        Exchange::Bitazza => 9,
        Exchange::Bitfinex => 10,
        Exchange::Bitflyer => 11,
        Exchange::Bitget => 12,
        Exchange::Bitmart => 13,
        Exchange::BitmartFuturesUsd => 14,
        Exchange::Bitmex => 15,
        Exchange::Bitso => 16,
        Exchange::Bitstamp => 17,
        Exchange::Bitvavo => 18,
        Exchange::Bithumb => 19,
        Exchange::BybitPerpetualsUsd => 20,
        Exchange::BybitSpot => 21,
        Exchange::Cexio => 22,
        Exchange::Coinbase => 23,
        Exchange::CoinbaseInternational => 24,
        Exchange::Cryptocom => 25,
        Exchange::Deribit => 26,
        Exchange::GateioFuturesBtc => 27,
        Exchange::GateioFuturesUsd => 28,
        Exchange::GateioOptions => 29,
        Exchange::GateioPerpetualsBtc => 30,
        Exchange::GateioPerpetualsUsd => 31,
        Exchange::GateioSpot => 32,
        Exchange::Gemini => 33,
        Exchange::Hitbtc => 34,
        Exchange::Htx => 35,
        Exchange::Kraken => 36,
        Exchange::Kucoin => 37,
        Exchange::Liquid => 38,
        Exchange::Mexc => 39,
        Exchange::Okx => 40,
        Exchange::Poloniex => 41,
    }
}

/// The exchange at a position among the variants, if there is one.
pub open spec fn exchange_at(i: u8) -> Option<Exchange> {
    match i {
        0 => Some(Exchange::Other),
        1 => Some(Exchange::Simulated),
        2 => Some(Exchange::Mock),
        3 => Some(Exchange::BinanceFuturesCoin),
        4 => Some(Exchange::BinanceFuturesUsd),
        5 => Some(Exchange::BinanceOptions),
        6 => Some(Exchange::BinancePortfolioMargin),
        7 => Some(Exchange::BinanceSpot),
        8 => Some(Exchange::BinanceUs),
        9 => Some(Exchange::Bitazza),
        10 => Some(Exchange::Bitfinex),
        11 => Some(Exchange::Bitflyer),
        12 => Some(Exchange::Bitget),
        13 => Some(Exchange::Bitmart),
        14 => Some(Exchange::BitmartFuturesUsd),
        15 => Some(Exchange::Bitmex),
        16 => Some(Exchange::Bitso),
        17 => Some(Exchange::Bitstamp),
        18 => Some(Exchange::Bitvavo),
        19 => Some(Exchange::Bithumb),
        20 => Some(Exchange::BybitPerpetualsUsd),
        21 => Some(Exchange::BybitSpot),
        22 => Some(Exchange::Cexio),
        23 => Some(Exchange::Coinbase),
        24 => Some(Exchange::CoinbaseInternational),
        25 => Some(Exchange::Cryptocom),
        26 => Some(Exchange::Deribit),
        27 => Some(Exchange::GateioFuturesBtc),
        28 => Some(Exchange::GateioFuturesUsd),
        29 => Some(Exchange::GateioOptions),
        30 => Some(Exchange::GateioPerpetualsBtc),
        31 => Some(Exchange::GateioPerpetualsUsd),
        32 => Some(Exchange::GateioSpot),
        33 => Some(Exchange::Gemini),
        34 => Some(Exchange::Hitbtc),
        35 => Some(Exchange::Htx),
        36 => Some(Exchange::Kraken),
        37 => Some(Exchange::Kucoin),
        38 => Some(Exchange::Liquid),
        39 => Some(Exchange::Mexc),
        40 => Some(Exchange::Okx),
        41 => Some(Exchange::Poloniex),
        _ => None,
    }
}

/// The position of the exchange that an optional exchange holds.
pub open spec fn index_of(e: Option<Exchange>) -> Option<u8> {
    match e {
        Some(x) => Some(exchange_index(x)),
        None => None,
    }
}

/// Every exchange sits at its own position.
pub proof fn lemma_exchange_at_index(e: Exchange)
    ensures
        exchange_at(exchange_index(e)) == Some(e),
{
}

impl Exchange {
    /// The label of the exchange.
    pub fn as_str(&self) -> (r: &'static str)
        ensures
            r@ == exchange_name(*self),
    {
        match self {
            Exchange::Other => "other",
            Exchange::Simulated => "simulated",
            Exchange::Mock => "mock",
            Exchange::BinanceFuturesCoin => "binance_futures_coin",
            Exchange::BinanceFuturesUsd => "binance_futures_usd",
            Exchange::BinanceOptions => "binance_options",
            Exchange::BinancePortfolioMargin => "binance_portfolio_margin",
            Exchange::BinanceSpot => "binance_spot",
            Exchange::BinanceUs => "binance_us",
            Exchange::Bitazza => "bitazza",
            Exchange::Bitfinex => "bitfinex",
            Exchange::Bitflyer => "bitflyer",
            Exchange::Bitget => "bitget",
            Exchange::Bitmart => "bitmart",
            Exchange::BitmartFuturesUsd => "bitmart_futures_usd",
            Exchange::Bitmex => "bitmex",
            Exchange::Bitso => "bitso",
            Exchange::Bitstamp => "bitstamp",
            Exchange::Bitvavo => "bitvavo",
            Exchange::Bithumb => "bithumb",
            Exchange::BybitPerpetualsUsd => "bybit_perpetuals_usd",
            Exchange::BybitSpot => "bybit_spot",
            Exchange::Cexio => "cexio",
            Exchange::Coinbase => "coinbase",
            Exchange::CoinbaseInternational => "coinbase_international",
            Exchange::Cryptocom => "cryptocom",
            Exchange::Deribit => "deribit",
            Exchange::GateioFuturesBtc => "gateio_futures_btc",
            Exchange::GateioFuturesUsd => "gateio_futures_usd",
            Exchange::GateioOptions => "gateio_options",
            Exchange::GateioPerpetualsBtc => "gateio_perpetuals_btc",
            Exchange::GateioPerpetualsUsd => "gateio_perpetuals_usd",
            Exchange::GateioSpot => "gateio_spot",
            Exchange::Gemini => "gemini",
            Exchange::Hitbtc => "hitbtc",
            Exchange::Htx => "htx",
            Exchange::Kraken => "kraken",
            Exchange::Kucoin => "kucoin",
            Exchange::Liquid => "liquid",
            Exchange::Mexc => "mexc",
            Exchange::Okx => "okx",
            Exchange::Poloniex => "poloniex",
        }
    }

    /// The exchange at a position among the variants, if there is one.
    pub fn from_index(i: u8) -> (r: Option<Exchange>)
        ensures
            r == exchange_at(i),
    {
        match i {
            0 => Some(Exchange::Other),
            1 => Some(Exchange::Simulated),
            2 => Some(Exchange::Mock),
            3 => Some(Exchange::BinanceFuturesCoin),
            4 => Some(Exchange::BinanceFuturesUsd),
            5 => Some(Exchange::BinanceOptions),
            6 => Some(Exchange::BinancePortfolioMargin),
            7 => Some(Exchange::BinanceSpot),
            8 => Some(Exchange::BinanceUs),
            9 => Some(Exchange::Bitazza),
            10 => Some(Exchange::Bitfinex),
            11 => Some(Exchange::Bitflyer),
            12 => Some(Exchange::Bitget),
            13 => Some(Exchange::Bitmart),
            14 => Some(Exchange::BitmartFuturesUsd),
            15 => Some(Exchange::Bitmex),
            16 => Some(Exchange::Bitso),
            17 => Some(Exchange::Bitstamp),
            18 => Some(Exchange::Bitvavo),
            19 => Some(Exchange::Bithumb),
            20 => Some(Exchange::BybitPerpetualsUsd),
            21 => Some(Exchange::BybitSpot),
            22 => Some(Exchange::Cexio),
            23 => Some(Exchange::Coinbase),
            24 => Some(Exchange::CoinbaseInternational),
            25 => Some(Exchange::Cryptocom),
            26 => Some(Exchange::Deribit),
            27 => Some(Exchange::GateioFuturesBtc),
            28 => Some(Exchange::GateioFuturesUsd),
            29 => Some(Exchange::GateioOptions),
            30 => Some(Exchange::GateioPerpetualsBtc),
            31 => Some(Exchange::GateioPerpetualsUsd),
            32 => Some(Exchange::GateioSpot),
            33 => Some(Exchange::Gemini),
            34 => Some(Exchange::Hitbtc),
            35 => Some(Exchange::Htx),
            36 => Some(Exchange::Kraken),
            37 => Some(Exchange::Kucoin),
            38 => Some(Exchange::Liquid),
            39 => Some(Exchange::Mexc),
            40 => Some(Exchange::Okx),
            41 => Some(Exchange::Poloniex),
            _ => None,
        }
    }
}

/// A text that a JSON string literal holds verbatim between its quotes: no
/// quote, no backslash and no control character.
pub open spec fn plain_json_text(s: Seq<char>) -> bool {
    forall|i: int| 0 <= i < s.len() ==> s[i] != '"' && s[i] != '\\' && (s[i] as u32) >= 0x20
}

/// What `serde_json::from_str::<ExchangeId>` gives for the label written
/// between double quotes, as the position of the variant.
pub uninterp spec fn exchange_quoted_index(label: Seq<char>) -> Option<u8>;

/// Calls `serde_json::from_str::<ExchangeId>` on the label written between
/// double quotes and returns the position of the variant read. `ExchangeId`
/// derives `Deserialize` with snake_case variant names and the alias `huobi`
/// for HTX, so a label that the literal holds verbatim is read as the exchange
/// it names, or refused. A label with quotes, backslashes or control
/// characters changes meaning inside the literal; of it the result is only named.
#[verifier::external_body]
pub(crate) fn exchange_index_from_label(label: &Vec<char>) -> (r: Option<u8>)
    ensures
        r == exchange_quoted_index(label@),
        plain_json_text(label@) ==> r == index_of(exchange_named(label@)),
        r matches Some(i) ==> i < 42,
{
    let text: String = label.iter().collect();
    match serde_json::from_str::<ExchangeId>(&format!("\"{}\"", text)) {
        Ok(id) => Some(id as u8),
        Err(_) => None,
    }
}

/// Calls `serde_json::from_value::<ExchangeId>` on a JSON string value holding
/// the label and returns the position of the variant read: the exchange the
/// label names by its snake_case name (or `huobi` for HTX), or none.
#[verifier::external_body]
fn exchange_index_from_value(label: &Vec<char>) -> (r: Option<u8>)
    ensures
        r == index_of(exchange_named(label@)),
{
    let text: String = label.iter().collect();
    match serde_json::from_value::<ExchangeId>(serde_json::Value::String(text)) {
        Ok(id) => Some(id as u8),
        Err(_) => None,
    }
}

/// The exchange that a label written as a JSON string literal is read as.
pub open spec fn exchange_of_quoted(label: Seq<char>) -> Option<Exchange> {
    if plain_json_text(label) {
        exchange_named(label)
    } else {
        match exchange_quoted_index(label) {
            Some(i) => exchange_at(i),
            None => None,
        }
    }
}

/// Resolve a label through its JSON string literal.
pub(crate) fn exchange_from_quoted(label: &Vec<char>) -> (r: Option<Exchange>)
    ensures
        r == exchange_of_quoted(label@),
{
    match exchange_index_from_label(label) {
        Some(i) => {
            proof {
                if plain_json_text(label@) {
                    lemma_exchange_at_index(exchange_named(label@)->0);
                }
            }
            Exchange::from_index(i)
        },
        None => None,
    }
}

/// Why an exchange label is refused.
#[derive(Debug)]
pub enum ExchangeIdError {
    /// The label is empty once surrounding whitespace is removed.
    Empty,
    /// The label names no known exchange; holds it trimmed of surrounding whitespace.
    Unknown { trimmed: String },
}

/// Resolve an exchange label: trimmed of surrounding whitespace, refused when
/// empty, then ASCII-lowered and looked up by its snake_case name.
pub fn parse_exchange_id(value: &str) -> (r: Result<Exchange, ExchangeIdError>)
    ensures
        trim(value@).len() == 0 ==> r matches Err(ExchangeIdError::Empty),
        trim(value@).len() > 0 ==> match exchange_named(lower(trim(value@))) {
            Some(e) => r matches Ok(x) && x == e,
            None => r matches Err(ExchangeIdError::Unknown { trimmed: t }) && t@ == trim(value@),
        },
{
    let chars = chars_of(value);
    let (a, b) = trim_bounds(&chars);
    if a == b {
        return Err(ExchangeIdError::Empty);
    }
    let label = lower_range(&chars, a, b);
    match exchange_index_from_value(&label) {
        Some(i) => {
            proof {
                lemma_exchange_at_index(exchange_named(label@)->0);
            }
            match Exchange::from_index(i) {
                Some(e) => Ok(e),
                None => Err(ExchangeIdError::Unknown { trimmed: crate::text::trimmed(value) }),
            }
        },
        None => Err(ExchangeIdError::Unknown { trimmed: crate::text::trimmed(value) }),
    }
}

} // verus!
