use rustbot::text::{
    AmountError, bool_to_text, i64_text, pad_center, pad_end, pad_start, parse_i16, push_spaces, remove_char, replace_char,
    text_before, text_eq, u64_text,
};

#[test]
fn numerals_are_decimal() {
    assert_eq!(u64_text(0), "0");
    assert_eq!(u64_text(1234567), "1234567");
    assert_eq!(i64_text(-42), "-42");
    assert_eq!(i64_text(i64::MIN), "-9223372036854775808");
}

#[test]
fn padding_matches_format_alignment() {
    assert_eq!(pad_end("ab", 5), format!("{:<5}", "ab"));
    assert_eq!(pad_start("ab", 5), format!("{:>5}", "ab"));
    assert_eq!(pad_center("ab", 5), format!("{:^5}", "ab"));
    assert_eq!(pad_center("ab", 5), " ab  ");
    assert_eq!(pad_center("abcdef", 3), "abcdef");
    assert_eq!(pad_end("é", 3), "é  ");
    let mut s = String::from("x");
    push_spaces(&mut s, 2);
    assert_eq!(s, "x  ");
}

#[test]
fn replacing_and_removing_characters() {
    assert_eq!(replace_char("a b c", ' ', '_'), "a_b_c");
    assert_eq!(remove_char("Zulrah's scales", '\''), "Zulrahs scales");
    assert_eq!(text_before("2024-01-02T00:00:00", 'T'), "2024-01-02");
    assert_eq!(text_before("no date mark", 'T'), "no date mark");
    assert_eq!(text_before("T", 'T'), "");
}

#[test]
fn comparing_texts() {
    assert!(text_eq("live", "live"));
    assert!(!text_eq("live", "lives"));
    assert!(!text_eq("live", "Live"));
    assert_eq!(bool_to_text(true), "true");
    assert_eq!(bool_to_text(false), "false");
}

#[test]
fn parsing_trade_amounts() {
    assert_eq!(parse_i16("5"), Ok(5));
    assert_eq!(parse_i16("+7"), Ok(7));
    assert_eq!(parse_i16("-3"), Ok(-3));
    assert_eq!(parse_i16("32767"), Ok(32767));
    assert_eq!(parse_i16("-32768"), Ok(-32768));
    assert_eq!(parse_i16(" 5"), Err(AmountError::InvalidDigit));
    assert_eq!(parse_i16(""), Err(AmountError::Empty));
    assert_eq!(parse_i16("-"), Err(AmountError::InvalidDigit));
    assert_eq!(parse_i16("32768"), Err(AmountError::PosOverflow));
    assert_eq!(parse_i16("-40000"), Err(AmountError::NegOverflow));
    assert_eq!(parse_i16("12a"), Err(AmountError::InvalidDigit));
}

#[test]
fn amount_error_messages() {
    assert_eq!(AmountError::Empty.message(), "cannot parse integer from empty string");
    assert_eq!(AmountError::InvalidDigit.message(), "invalid digit found in string");
    assert_eq!(AmountError::PosOverflow.message(), "number too large to fit in target type");
    assert_eq!(AmountError::NegOverflow.message(), "number too small to fit in target type");
    assert_eq!(AmountError::PosOverflow.message(), "40000".parse::<i16>().unwrap_err().to_string());
}
