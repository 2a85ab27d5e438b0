use barter_python::parse::{
    closing_side, ensure_non_empty, parse_engine_feed_mode, parse_interval_from_str,
    parse_option_exercise, parse_option_kind, parse_side, parse_summary_interval,
    summary_interval_label, EngineFeedMode,
    IntervalChoice, OptionExercise, OptionKind, ParseError, Side, SummaryInterval,
};
use barter_python::text::{
    alnum_lower, char_ascii_lower, char_is_ascii_alnum, char_is_white_space, chars_of, eq_literal,
    trim_bounds, trimmed,
};

#[test]
fn parse_engine_feed_mode_defaults_to_stream() {
    assert_eq!(parse_engine_feed_mode(None).unwrap(), EngineFeedMode::Stream);
}

#[test]
fn parse_engine_feed_mode_accepts_known_values() {
    assert_eq!(
        parse_engine_feed_mode(Some("iterator")).unwrap(),
        EngineFeedMode::Iterator
    );
    assert_eq!(
        parse_engine_feed_mode(Some(" STREAM ")).unwrap(),
        EngineFeedMode::Stream
    );
    assert_eq!(
        parse_engine_feed_mode(Some("ItErAtOr")).unwrap(),
        EngineFeedMode::Iterator
    );
}

#[test]
fn parse_engine_feed_mode_rejects_unknown_value() {
    let error = parse_engine_feed_mode(Some("warp")).unwrap_err();
    match error {
        ParseError::InvalidEngineFeedMode { raw } => assert_eq!(raw, "warp"),
        other => panic!("unexpected error: {other:?}"),
    }
}

#[test]
fn feed_mode_error_keeps_raw_input() {
    match parse_engine_feed_mode(Some("  Warp ")).unwrap_err() {
        ParseError::InvalidEngineFeedMode { raw } => assert_eq!(raw, "  Warp "),
        other => panic!("unexpected error: {other:?}"),
    }
}

#[test]
fn white_space_matches_std_on_every_char() {
    for code in 0u32..=0x10FFFF {
        if let Some(c) = char::from_u32(code) {
            assert_eq!(char_is_white_space(c), c.is_whitespace(), "code point {code:#x}");
            assert_eq!(char_is_ascii_alnum(c), c.is_ascii_alphanumeric(), "code point {code:#x}");
            assert_eq!(char_ascii_lower(c), c.to_ascii_lowercase(), "code point {code:#x}");
        }
    }
}

#[test]
fn trimming_matches_std() {
    for text in ["", "   ", " a ", "\u{3000}x\u{2028}", "\tdaily\n", "a b", "\u{85}\u{a0}z"] {
        let chars = chars_of(text);
        let (a, b) = trim_bounds(&chars);
        let kept: String = chars[a..b].iter().collect();
        assert_eq!(kept, text.trim());
        assert_eq!(trimmed(text), text.trim());
    }
}

#[test]
fn alnum_lower_keeps_only_ascii_alphanumerics() {
    let chars = chars_of("Annual_252!é");
    let out: String = alnum_lower(&chars).into_iter().collect();
    assert_eq!(out, "annual252");
    assert!(eq_literal(&chars_of("daily"), "daily"));
    assert!(!eq_literal(&chars_of("dail"), "daily"));
    assert!(!eq_literal(&chars_of("Daily"), "daily"));
}

#[test]
fn summary_interval_parsing() {
    assert_eq!(parse_summary_interval(None).unwrap(), SummaryInterval::Daily);
    assert_eq!(parse_summary_interval(Some("")).unwrap(), SummaryInterval::Daily);
    assert_eq!(parse_summary_interval(Some("  ")).unwrap(), SummaryInterval::Daily);
    assert_eq!(parse_summary_interval(Some("DAILY")).unwrap(), SummaryInterval::Daily);
    assert_eq!(parse_summary_interval(Some("annual_252")).unwrap(), SummaryInterval::Annual252);
    assert_eq!(parse_summary_interval(Some("Annual-365")).unwrap(), SummaryInterval::Annual365);
    assert_eq!(parse_summary_interval(Some("annual(365)")).unwrap(), SummaryInterval::Annual365);
    match parse_summary_interval(Some("  weekly ")).unwrap_err() {
        ParseError::InvalidSummaryInterval { raw } => assert_eq!(raw, "weekly"),
        other => panic!("unexpected error: {other:?}"),
    }
}

#[test]
fn interval_identifier_parsing() {
    assert!(matches!(parse_interval_from_str(" Daily ").unwrap(), IntervalChoice::Daily));
    for label in ["annual(252)", "annual_252", "ANNUAL-252", "annual252"] {
        assert!(matches!(parse_interval_from_str(label).unwrap(), IntervalChoice::Annual252));
    }
    for label in ["annual(365)", "Annual_365", "annual-365", "annual365\t"] {
        assert!(matches!(parse_interval_from_str(label).unwrap(), IntervalChoice::Annual365));
    }
    match parse_interval_from_str(" Weekly ").unwrap_err() {
        ParseError::UnsupportedInterval { normalised } => {
            assert_eq!(normalised.into_iter().collect::<String>(), "weekly")
        }
        other => panic!("unexpected error: {other:?}"),
    }
    // separators are significant here, unlike for summary intervals
    assert!(parse_interval_from_str("annual 252").is_err());
}

#[test]
fn side_parsing_and_closing() {
    assert_eq!(parse_side("buy").unwrap(), Side::Buy);
    assert_eq!(parse_side("B").unwrap(), Side::Buy);
    assert_eq!(parse_side("SELL").unwrap(), Side::Sell);
    assert_eq!(parse_side("s").unwrap(), Side::Sell);
    match parse_side("Hold").unwrap_err() {
        ParseError::InvalidSide { lowered } => {
            assert_eq!(lowered.into_iter().collect::<String>(), "hold")
        }
        other => panic!("unexpected error: {other:?}"),
    }
    // no trimming for sides
    assert!(parse_side(" buy").is_err());
    assert_eq!(closing_side(Side::Buy), Side::Sell);
    assert_eq!(closing_side(Side::Sell), Side::Buy);
}

#[test]
fn option_kind_accepts_call_and_put_in_any_case() {
    assert_eq!(parse_option_kind("call").unwrap(), OptionKind::Call);
    assert_eq!(parse_option_kind("PuT").unwrap(), OptionKind::Put);
}

#[test]
fn option_kind_rejects_unknown_with_lowered_text() {
    match parse_option_kind("Straddle") {
        Err(ParseError::UnsupportedOptionKind { lowered }) => {
            assert_eq!(lowered.iter().collect::<String>(), "straddle")
        }
        other => panic!("unexpected result: {other:?}"),
    }
    // surrounding whitespace is not removed
    assert!(parse_option_kind(" call").is_err());
}

#[test]
fn option_exercise_accepts_the_three_styles() {
    assert_eq!(parse_option_exercise("american").unwrap(), OptionExercise::American);
    assert_eq!(parse_option_exercise("BERMUDAN").unwrap(), OptionExercise::Bermudan);
    assert_eq!(parse_option_exercise("European").unwrap(), OptionExercise::European);
}

#[test]
fn option_exercise_rejects_unknown_with_lowered_text() {
    match parse_option_exercise("Asian") {
        Err(ParseError::UnsupportedOptionExercise { lowered }) => {
            assert_eq!(lowered.iter().collect::<String>(), "asian")
        }
        other => panic!("unexpected result: {other:?}"),
    }
}

#[test]
fn ensure_non_empty_refuses_blank_identifiers() {
    assert!(matches!(
        ensure_non_empty("", "order id"),
        Err(ParseError::Blank { label: "order id" })
    ));
    assert!(matches!(
        ensure_non_empty(" \t\n", "trade id"),
        Err(ParseError::Blank { label: "trade id" })
    ));
    assert!(matches!(
        ensure_non_empty("\u{3000}", "strategy id"),
        Err(ParseError::Blank { label: "strategy id" })
    ));
    assert!(ensure_non_empty(" cid-1 ", "client order id").is_ok());
}

#[test]
fn summary_interval_labels_parse_back() {
    for interval in [SummaryInterval::Daily, SummaryInterval::Annual252, SummaryInterval::Annual365] {
        let label = summary_interval_label(interval);
        assert_eq!(parse_summary_interval(Some(label)).unwrap(), interval);
    }
    assert_eq!(summary_interval_label(SummaryInterval::Annual252), "annual_252");
    assert_eq!(summary_interval_label(SummaryInterval::Annual365), "annual_365");
    assert_eq!(summary_interval_label(SummaryInterval::Daily), "daily");
}
