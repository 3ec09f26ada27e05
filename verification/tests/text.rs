use madness::models::round_name;
use madness::odds::parse_moneyline;
use madness::text::{i64_to_string, parse_i64, str_eq};

#[test]
fn moneyline_reads_signed_integers() {
    assert_eq!(parse_moneyline("+150"), Some(150));
    assert_eq!(parse_moneyline("-200"), Some(-200));
    assert_eq!(parse_moneyline("-110"), Some(-110));
    assert_eq!(parse_moneyline("250"), Some(250));
}

#[test]
fn moneyline_ignores_surrounding_whitespace_and_inner_spaces() {
    assert_eq!(parse_moneyline("  +150\n"), Some(150));
    assert_eq!(parse_moneyline("\t- 200 "), Some(-200));
    assert_eq!(parse_moneyline("\u{a0}+1 5 0\u{3000}"), Some(150));
}

#[test]
fn moneyline_rejects_non_numbers() {
    assert_eq!(parse_moneyline(""), None);
    assert_eq!(parse_moneyline("   "), None);
    assert_eq!(parse_moneyline("+"), None);
    assert_eq!(parse_moneyline("EVEN"), None);
    assert_eq!(parse_moneyline("1.5"), None);
    assert_eq!(parse_moneyline("-1\t5"), None);
}

#[test]
fn moneyline_range_is_that_of_i64() {
    assert_eq!(parse_moneyline("9223372036854775807"), Some(i64::MAX));
    assert_eq!(parse_moneyline("-9223372036854775808"), Some(i64::MIN));
    assert_eq!(parse_moneyline("9223372036854775808"), None);
    assert_eq!(parse_moneyline("-9223372036854775809"), None);
    assert_eq!(parse_moneyline("99999999999999999999999"), None);
}

#[test]
fn parse_i64_agrees_with_std() {
    for s in ["0", "-0", "+0", "007", "12a", "a12", "-", "", " 1", "1 ", "+-1", "123456789012"] {
        assert_eq!(parse_i64(s), s.parse::<i64>().ok(), "input {:?}", s);
    }
}

#[test]
fn decimal_formatting_matches_to_string() {
    for v in [0i64, 7, 10, 42, -1, -16, 1234567890, i64::MAX, i64::MIN] {
        assert_eq!(i64_to_string(v), v.to_string());
        assert_eq!(parse_i64(&i64_to_string(v)), Some(v));
    }
}

#[test]
fn str_eq_compares_characters() {
    assert!(str_eq("East", "East"));
    assert!(!str_eq("East", "Eas"));
    assert!(!str_eq("East", "West"));
    assert!(str_eq("", ""));
    assert!(str_eq("Señor", "Señor"));
}

#[test]
fn round_names() {
    assert_eq!(round_name(0), "First Four");
    assert_eq!(round_name(1), "Round of 64");
    assert_eq!(round_name(2), "Round of 32");
    assert_eq!(round_name(3), "Sweet 16");
    assert_eq!(round_name(4), "Elite Eight");
    assert_eq!(round_name(5), "Final Four");
    assert_eq!(round_name(6), "Championship");
    assert_eq!(round_name(7), "Unknown");
    assert_eq!(round_name(-1), "Unknown");
}

#[test]
fn whitespace_is_that_of_char_is_whitespace() {
    for code in 0u32..0x3100 {
        let Some(c) = char::from_u32(code) else { continue };
        let s = format!("{c}12{c}");
        let expected = s.trim().replace(' ', "").parse::<i64>().ok();
        assert_eq!(parse_moneyline(&s), expected, "character U+{:04X}", code);
    }
}

#[test]
fn written_moneylines_read_back() {
    for v in [0i64, 1, 150, -110, -200, 9999, i64::MAX, i64::MIN] {
        assert_eq!(parse_moneyline(&v.to_string()), Some(v));
        assert_eq!(parse_moneyline(&i64_to_string(v)), Some(v));
        if v >= 0 {
            assert_eq!(parse_moneyline(&format!("+{}", v)), Some(v));
        }
    }
}
