use masq::timer::{millis_text, Timer};

#[test]
fn millis_text_is_number_then_ms() {
    assert_eq!(millis_text(0), "0ms");
    assert_eq!(millis_text(250), "250ms");
    assert_eq!(millis_text(1234567890), "1234567890ms");
}

#[test]
fn timer_reports_milliseconds() {
    let text = Timer::new().ms();
    assert!(text.ends_with("ms"));
    let digits = &text[..text.len() - 2];
    assert!(!digits.is_empty() && digits.chars().all(|c| c.is_ascii_digit()), "{}", text);
}

#[test]
fn timer_stop_is_short() {
    let elapsed = Timer::new().stop();
    assert!(elapsed.as_secs() < 20);
}
