//! Parsers for the textual options that the bindings accept: summary
//! intervals, metric intervals, order sides and engine feed modes.
use vstd::prelude::*;

use chrono::TimeDelta;

use vstd::string::StringExecFns;
use crate::text::{
    alnum_lower, alnum_only, chars_of, eq_literal, lower, lower_range, trim, trim_bounds, trimmed,
};

verus! {

/// `chrono::TimeDelta`, carried through unchanged.
#[verifier::external_type_specification]
#[verifier::external_body]
pub struct ExTimeDelta(TimeDelta);

/// Interval over which a trading summary annualises its statistics.
#[derive(Clone, Copy, Debug, PartialEq, Eq)]
pub enum SummaryInterval {
    Daily,
    Annual252,
    Annual365,
}

/// Interval that a metric is expressed over.
#[derive(Clone, Copy, Debug)]
pub enum IntervalChoice {
    Daily,
    Annual252,
    Annual365,
    Duration(TimeDelta),
}

/// Side of a trade or position.
#[derive(Clone, Copy, Debug, PartialEq, Eq)]
pub enum Side {
    Buy,
    Sell,
}

/// How the engine is fed with events.
#[derive(Clone, Copy, Debug, PartialEq, Eq)]
pub enum EngineFeedMode {
    Stream,
    Iterator,
}

/// Kind of an option contract.
#[derive(Clone, Copy, Debug, PartialEq, Eq)]
pub enum OptionKind {
    Call,
    Put,
}

/// When an option contract can be exercised.
#[derive(Clone, Copy, Debug, PartialEq, Eq)]
pub enum OptionExercise {
    American,
    Bermudan,
    European,
}

/// Errors of the textual parsers, holding the text the message quotes.
#[derive(Debug)]
pub enum ParseError {
    /// An unknown summary interval; holds the input with surrounding whitespace removed.
    InvalidSummaryInterval { raw: String },
    /// An unknown interval identifier; holds the normalised input.
    UnsupportedInterval { normalised: Vec<char> },
    /// An unknown side; holds the lower-cased input.
    InvalidSide { lowered: Vec<char> },
    /// An unknown engine feed mode; holds the input as given.
    InvalidEngineFeedMode { raw: String },
    /// An unknown option kind; holds the lower-cased input.
    UnsupportedOptionKind { lowered: Vec<char> },
    /// An unknown option exercise style; holds the lower-cased input.
    UnsupportedOptionExercise { lowered: Vec<char> },
    /// The named identifier is empty once surrounding whitespace is removed.
    Blank { label: &'static str },
}

/// The summary interval that `raw` names once reduced to its ASCII
/// alphanumerics in lower case: nothing or `daily`, `annual252`, `annual365`.
pub open spec fn summary_interval_of(raw: Seq<char>) -> Option<SummaryInterval> {
    let n = lower(alnum_only(raw));
    if n == Seq::<char>::empty() || n == "daily"@ {
        Some(SummaryInterval::Daily)
    } else if n == "annual252"@ {
        Some(SummaryInterval::Annual252)
    } else if n == "annual365"@ {
        Some(SummaryInterval::Annual365)
    } else {
        None
    }
}

/// Parse an optional summary interval; none given means daily.
pub fn parse_summary_interval(value: Option<&str>) -> (r: Result<SummaryInterval, ParseError>)
    ensures
        value is None ==> r matches Ok(SummaryInterval::Daily),
        value matches Some(raw) ==> match summary_interval_of(raw@) {
            Some(i) => r matches Ok(j) && j == i,
            None => r matches Err(ParseError::InvalidSummaryInterval { raw: t }) && t@ == trim(raw@),
        },
{
    match value {
        None => Ok(SummaryInterval::Daily),
        Some(raw) => {
            let chars = chars_of(raw);
            let normalized = alnum_lower(&chars);
            if normalized.len() == 0 {
                assert(normalized@ =~= Seq::<char>::empty());
                Ok(SummaryInterval::Daily)
            } else if eq_literal(&normalized, "daily") {
                Ok(SummaryInterval::Daily)
            } else if eq_literal(&normalized, "annual252") {
                Ok(SummaryInterval::Annual252)
            } else if eq_literal(&normalized, "annual365") {
                Ok(SummaryInterval::Annual365)
            } else {
                Err(ParseError::InvalidSummaryInterval { raw: trimmed(raw) })
            }
        },
    }
}

/// The label under which a summary interval is reported.
pub open spec fn summary_label(interval: SummaryInterval) -> Seq<char> {
    match interval {
        SummaryInterval::Daily => "daily"@,
        SummaryInterval::Annual252 => "annual_252"@,
        SummaryInterval::Annual365 => "annual_365"@,
    }
}

/// The label under which a summary interval is reported.
pub fn summary_interval_label(interval: SummaryInterval) -> (r: &'static str)
    ensures
        r@ == summary_label(interval),
{
    match interval {
        SummaryInterval::Daily => "daily",
        SummaryInterval::Annual252 => "annual_252",
        SummaryInterval::Annual365 => "annual_365",
    }
}

/// A reported summary interval label parses back to the same interval.
pub proof fn law_summary_label_parses_back(interval: SummaryInterval)
    ensures
        summary_interval_of(summary_label(interval)) == Some(interval),
{
    reveal_strlit("daily");
    reveal_strlit("annual_252");
    reveal_strlit("annual_365");
    reveal_strlit("annual252");
    reveal_strlit("annual365");
    reveal_with_fuel(alnum_only, 11);
    match interval {
        SummaryInterval::Daily => {
            assert(lower(alnum_only("daily"@)) =~= "daily"@);
        },
        SummaryInterval::Annual252 => {
            assert(lower(alnum_only("annual_252"@)) =~= "annual252"@);
            assert("annual252"@ != "daily"@);
            assert(summary_interval_of("annual_252"@) == Some(SummaryInterval::Annual252));
        },
        SummaryInterval::Annual365 => {
            assert(lower(alnum_only("annual_365"@)) =~= "annual365"@);
            assert("annual365"@ != "annual252"@) by {
                assert("annual365"@[6] != "annual252"@[6]);
            }
            assert(summary_interval_of("annual_365"@) == Some(SummaryInterval::Annual365));
        },
    }
}

/// `s` trimmed of surrounding whitespace and ASCII-lowered.
pub open spec fn normalised(s: Seq<char>) -> Seq<char> {
    lower(trim(s))
}

/// The metric interval that a normalised label names.
pub open spec fn interval_of(label: Seq<char>) -> Option<IntervalChoice> {
    let n = normalised(label);
    if n == "daily"@ {
        Some(IntervalChoice::Daily)
    } else if n == "annual(252)"@ || n == "annual_252"@ || n == "annual-252"@ || n == "annual252"@ {
        Some(IntervalChoice::Annual252)
    } else if n == "annual(365)"@ || n == "annual_365"@ || n == "annual-365"@ || n == "annual365"@ {
        Some(IntervalChoice::Annual365)
    } else {
        None
    }
}

/// The normalised characters of `s`.
fn normalise(s: &str) -> (r: Vec<char>)
    ensures
        r@ == normalised(s@),
{
    let chars = chars_of(s);
    let (a, b) = trim_bounds(&chars);
    lower_range(&chars, a, b)
}

/// Parse a metric interval identifier such as `daily` or `annual_252`.
pub fn parse_interval_from_str(label: &str) -> (r: Result<IntervalChoice, ParseError>)
    ensures
        match interval_of(label@) {
            Some(IntervalChoice::Daily) => r matches Ok(IntervalChoice::Daily),
            Some(IntervalChoice::Annual252) => r matches Ok(IntervalChoice::Annual252),
            Some(IntervalChoice::Annual365) => r matches Ok(IntervalChoice::Annual365),
            Some(IntervalChoice::Duration(_)) => false,
            None => r matches Err(ParseError::UnsupportedInterval { normalised: n }) && n@
                == normalised(label@),
        },
{
    let n = normalise(label);
    if eq_literal(&n, "daily") {
        Ok(IntervalChoice::Daily)
    } else if eq_literal(&n, "annual(252)") || eq_literal(&n, "annual_252") || eq_literal(
        &n,
        "annual-252",
    ) || eq_literal(&n, "annual252") {
        Ok(IntervalChoice::Annual252)
    } else if eq_literal(&n, "annual(365)") || eq_literal(&n, "annual_365") || eq_literal(
        &n,
        "annual-365",
    ) || eq_literal(&n, "annual365") {
        Ok(IntervalChoice::Annual365)
    } else {
        Err(ParseError::UnsupportedInterval { normalised: n })
    }
}

/// The side that `s` names once ASCII-lowered: `buy` or `b`, `sell` or `s`.
pub open spec fn side_of(s: Seq<char>) -> Option<Side> {
    let n = lower(s);
    if n == "buy"@ || n == "b"@ {
        Some(Side::Buy)
    } else if n == "sell"@ || n == "s"@ {
        Some(Side::Sell)
    } else {
        None
    }
}

/// Parse an order side, accepting `buy`/`b` and `sell`/`s` in any ASCII case.
pub fn parse_side(value: &str) -> (r: Result<Side, ParseError>)
    ensures
        match side_of(value@) {
            Some(side) => r matches Ok(t) && t == side,
            None => r matches Err(ParseError::InvalidSide { lowered: n }) && n@ == lower(value@),
        },
{
    let n = lowered(value);
    if eq_literal(&n, "buy") || eq_literal(&n, "b") {
        Ok(Side::Buy)
    } else if eq_literal(&n, "sell") || eq_literal(&n, "s") {
        Ok(Side::Sell)
    } else {
        Err(ParseError::InvalidSide { lowered: n })
    }
}

/// The side that closes a position held on `position_side`.
pub fn closing_side(position_side: Side) -> (r: Side)
    ensures
        r != position_side,
{
    match position_side {
        Side::Buy => Side::Sell,
        Side::Sell => Side::Buy,
    }
}

/// The feed mode that a normalised label names: `stream` or `iterator`.
pub open spec fn feed_mode_of(s: Seq<char>) -> Option<EngineFeedMode> {
    let n = normalised(s);
    if n == "stream"@ {
        Some(EngineFeedMode::Stream)
    } else if n == "iterator"@ {
        Some(EngineFeedMode::Iterator)
    } else {
        None
    }
}

/// Parse an optional engine feed mode; none given means streaming.
pub fn parse_engine_feed_mode(value: Option<&str>) -> (r: Result<EngineFeedMode, ParseError>)
    ensures
        match value {
            None => r matches Ok(EngineFeedMode::Stream),
            Some(raw) => match feed_mode_of(raw@) {
                Some(m) => r matches Ok(t) && t == m,
                None => r matches Err(ParseError::InvalidEngineFeedMode { raw: t }) && t@ == raw@,
            },
        },
{
    match value {
        None => Ok(EngineFeedMode::Stream),
        Some(raw) => {
            let n = normalise(raw);
            if eq_literal(&n, "stream") {
                Ok(EngineFeedMode::Stream)
            } else if eq_literal(&n, "iterator") {
                Ok(EngineFeedMode::Iterator)
            } else {
                Err(ParseError::InvalidEngineFeedMode { raw: String::from_str(raw) })
            }
        },
    }
}

/// `value` ASCII-lowered, as a vector of characters.
pub(crate) fn lowered(value: &str) -> (r: Vec<char>)
    ensures
        r@ == lower(value@),
{
    let chars = chars_of(value);
    proof {
        assert(chars@.subrange(0, chars@.len() as int) =~= chars@);
    }
    lower_range(&chars, 0, chars.len())
}

/// The option kind that `s` names once ASCII-lowered: `call` or `put`.
pub open spec fn option_kind_of(s: Seq<char>) -> Option<OptionKind> {
    let n = lower(s);
    if n == "call"@ {
        Some(OptionKind::Call)
    } else if n == "put"@ {
        Some(OptionKind::Put)
    } else {
        None
    }
}

/// Parse an option kind, `call` or `put` in any ASCII case.
pub fn parse_option_kind(value: &str) -> (r: Result<OptionKind, ParseError>)
    ensures
        match option_kind_of(value@) {
            Some(k) => r matches Ok(t) && t == k,
            None => r matches Err(ParseError::UnsupportedOptionKind { lowered: n }) && n@ == lower(
                value@,
            ),
        },
{
    let n = lowered(value);
    if eq_literal(&n, "call") {
        Ok(OptionKind::Call)
    } else if eq_literal(&n, "put") {
        Ok(OptionKind::Put)
    } else {
        Err(ParseError::UnsupportedOptionKind { lowered: n })
    }
}

/// The exercise style that `s` names once ASCII-lowered.
pub open spec fn option_exercise_of(s: Seq<char>) -> Option<OptionExercise> {
    let n = lower(s);
    if n == "american"@ {
        Some(OptionExercise::American)
    } else if n == "bermudan"@ {
        Some(OptionExercise::Bermudan)
    } else if n == "european"@ {
        Some(OptionExercise::European)
    } else {
        None
    }
}

/// Parse an option exercise style, `american`, `bermudan` or `european` in any ASCII case.
pub fn parse_option_exercise(value: &str) -> (r: Result<OptionExercise, ParseError>)
    ensures
        match option_exercise_of(value@) {
            Some(e) => r matches Ok(t) && t == e,
            None => r matches Err(ParseError::UnsupportedOptionExercise { lowered: n }) && n@
                == lower(value@),
        },
{
    let n = lowered(value);
    if eq_literal(&n, "american") {
        Ok(OptionExercise::American)
    } else if eq_literal(&n, "bermudan") {
        Ok(OptionExercise::Bermudan)
    } else if eq_literal(&n, "european") {
        Ok(OptionExercise::European)
    } else {
        Err(ParseError::UnsupportedOptionExercise { lowered: n })
    }
}

/// Refuse the identifier named `label` when it is empty once surrounding
/// whitespace is removed.
pub fn ensure_non_empty(value: &str, label: &'static str) -> (r: Result<(), ParseError>)
    ensures
        trim(value@).len() == 0 ==> (r matches Err(ParseError::Blank { label: l }) && l == label),
        trim(value@).len() > 0 ==> r is Ok,
{
    let chars = chars_of(value);
    let (a, b) = trim_bounds(&chars);
    if a == b {
        Err(ParseError::Blank { label })
    } else {
        Ok(())
    }
}

} // verus!
