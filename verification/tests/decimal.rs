use masq::decimal::{parse_unsigned_text, push_decimal};

#[test]
fn parses_plain_and_signed_numbers() {
    assert_eq!(parse_unsigned_text("42", 255), Some(42));
    assert_eq!(parse_unsigned_text("+7", 255), Some(7));
    assert_eq!(parse_unsigned_text("007", 255), Some(7));
    assert_eq!(parse_unsigned_text("255", 255), Some(255));
}

#[test]
fn rejects_what_str_parse_rejects() {
    assert_eq!(parse_unsigned_text("", 255), None);
    assert_eq!(parse_unsigned_text("+", 255), None);
    assert_eq!(parse_unsigned_text("-1", 255), None);
    assert_eq!(parse_unsigned_text("256", 255), None);
    assert_eq!(parse_unsigned_text("12a", 255), None);
    assert_eq!(parse_unsigned_text(" 1", 255), None);
    assert_eq!(parse_unsigned_text("++1", 255), None);
}

#[test]
fn u64_limits() {
    assert_eq!(parse_unsigned_text("18446744073709551615", u64::MAX), Some(u64::MAX));
    assert_eq!(parse_unsigned_text("18446744073709551616", u64::MAX), None);
    assert_eq!(parse_unsigned_text("99999999999999999999999x", u64::MAX), None);
}

#[test]
fn agrees_with_std_parse() {
    let samples = [
        "0", "1", "+1", "-0", "", "+", "254", "255", "256", "1000", "0x10", "١", "9 ", "+-1", "00000000000000000000000255",
    ];
    for s in samples.iter() {
        assert_eq!(parse_unsigned_text(s, 255), s.parse::<u8>().ok().map(u64::from), "u8 {:?}", s);
        assert_eq!(parse_unsigned_text(s, u64::MAX), s.parse::<u64>().ok(), "u64 {:?}", s);
    }
}

#[test]
fn writes_decimal_text() {
    let mut text = String::from("n=");
    push_decimal(&mut text, 0);
    assert_eq!(text, "n=0");
    let mut text = String::new();
    push_decimal(&mut text, 1234567);
    assert_eq!(text, "1234567");
    let mut text = String::new();
    push_decimal(&mut text, u128::MAX);
    assert_eq!(text, u128::MAX.to_string());
}

#[test]
fn written_numbers_read_back() {
    for n in [0u64, 9, 10, 99, 255, 4096, u64::MAX] {
        let mut text = String::new();
        push_decimal(&mut text, n as u128);
        assert_eq!(parse_unsigned_text(&text, u64::MAX), Some(n));
    }
}
