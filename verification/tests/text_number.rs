use deribit_mcp::number::{parse_u64, parses_as_float, F64Bits};
use deribit_mcp::text::{
    decimal_string, split_on, str_contains, str_equal, str_less, to_ascii_uppercase, trim_str,
};

#[test]
fn float_grammar_agrees_with_std() {
    let samples = [
        "0", "50000", "1.5", ".5", "5.", ".", "", "-", "+", "+1", "-2.5", "1e3", "1E-3", "1e",
        "1e+", "e3", "inf", "-INF", "Infinity", "+infinity", "nan", "NaN", "-nan", "infin", "1_000",
        " 1", "1 ", "0x10", "1.2.3", "1e3.5", "١", "12a", "--1", "+-1", "1e+07", "00012", "0.0e0",
    ];
    for s in samples {
        assert_eq!(parses_as_float(s), s.parse::<f64>().is_ok(), "{s:?}");
    }
}

#[test]
fn positive_finite_matches_f64_predicate() {
    for x in [1.0f64, 0.0, -0.0, -1.0, f64::MIN_POSITIVE, 5e-324, f64::MAX, f64::INFINITY, f64::NEG_INFINITY, f64::NAN] {
        let b = F64Bits::from_bits(x.to_bits());
        assert_eq!(b.is_positive_finite(), x.is_finite() && x > 0.0, "{x:?}");
    }
}

#[test]
fn parse_u64_accepts_plain_decimal_only() {
    assert_eq!(parse_u64("0"), Some(0));
    assert_eq!(parse_u64("25000"), Some(25000));
    assert_eq!(parse_u64("+7"), Some(7));
    assert_eq!(parse_u64("18446744073709551615"), Some(u64::MAX));
    assert_eq!(parse_u64("18446744073709551616"), None);
    assert_eq!(parse_u64(""), None);
    assert_eq!(parse_u64("-1"), None);
    assert_eq!(parse_u64("1.0"), None);
    assert_eq!(parse_u64(" 1"), None);
    for s in ["0", "25000", "+7", "18446744073709551616", "", "-1", "1.0", " 1", "+"] {
        assert_eq!(parse_u64(s), s.parse::<u64>().ok(), "{s:?}");
    }
}

#[test]
fn text_helpers_match_std() {
    for s in ["  BTC \t", "", "   ", "\u{2003}eth\n", "a b"] {
        assert_eq!(trim_str(s), s.trim());
        assert_eq!(to_ascii_uppercase(s), s.to_ascii_uppercase());
    }
    assert_eq!(decimal_string(0), "0");
    assert_eq!(decimal_string(720), "720");
    assert_eq!(decimal_string(u64::MAX), u64::MAX.to_string());
    assert!(str_equal("abc", "abc"));
    assert!(!str_equal("abc", "abd"));
    assert!(str_contains("BTC_USDC-PERPETUAL", "_USDC"));
    assert!(!str_contains("BTC-PERPETUAL", "_USDC"));
    assert!(str_contains("x", ""));
    assert_eq!(split_on("a--b", '-'), vec!["a", "", "b"]);
    assert_eq!(split_on("", '-'), vec![""]);
    assert!(str_less("get_book", "get_ticker"));
    assert!(!str_less("b", "a"));
    assert!(str_less("a", "ab"));
    assert!(!str_less("a", "a"));
}
