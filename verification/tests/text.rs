use sympho::text::{decimal_text, dur_to_hhmmss, two_digit_text};
use sympho::time::Duration;

#[test]
fn decimal_text_writes_numbers() {
    assert_eq!(decimal_text(0), "0");
    assert_eq!(decimal_text(7), "7");
    assert_eq!(decimal_text(10), "10");
    assert_eq!(decimal_text(1234567890), "1234567890");
    assert_eq!(decimal_text(u64::MAX), "18446744073709551615");
}

#[test]
fn two_digit_text_pads_one_digit() {
    assert_eq!(two_digit_text(0), "00");
    assert_eq!(two_digit_text(9), "09");
    assert_eq!(two_digit_text(10), "10");
    assert_eq!(two_digit_text(123), "123");
}

#[test]
fn dur_to_hhmmss_writes_hours_minutes_seconds() {
    assert_eq!(dur_to_hhmmss(Duration::zero()), "00:00:00");
    assert_eq!(dur_to_hhmmss(Duration::from_secs(59)), "00:00:59");
    assert_eq!(dur_to_hhmmss(Duration::from_secs(60)), "00:01:00");
    assert_eq!(dur_to_hhmmss(Duration::from_secs(3723)), "01:02:03");
    assert_eq!(dur_to_hhmmss(Duration::from_secs(9420)), "02:37:00");
    assert_eq!(dur_to_hhmmss(Duration::new(3599, 999_999_999)), "00:59:59");
    assert_eq!(dur_to_hhmmss(Duration::from_secs(360_000)), "100:00:00");
}
