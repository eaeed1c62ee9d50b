use mpvbot::format_time;
use mpvbot::text::{i64_to_dec, lowercase, parse_u16, str_eq, u64_to_dec};

#[test]
fn format_time_minute_five() {
    assert_eq!(format_time(65), "01:05");
}

#[test]
fn format_time_hour_minute_second() {
    assert_eq!(format_time(3661), "01:01:01");
}

#[test]
fn format_time_zero() {
    assert_eq!(format_time(0), "00:00");
}

#[test]
fn format_time_hours_shown_only_when_nonzero() {
    assert_eq!(format_time(3599), "59:59");
    assert_eq!(format_time(3600), "01:00:00");
}

#[test]
fn format_time_hours_do_not_wrap() {
    assert_eq!(format_time(60 * 3600), "60:00:00");
    assert_eq!(format_time(60 * 3600 + 65), "60:01:05");
}

#[test]
fn format_time_hours_grow_past_two_digits() {
    assert_eq!(format_time(100 * 3600 + 59), "100:00:59");
}

#[test]
fn decimal_rendering() {
    assert_eq!(u64_to_dec(0), "0");
    assert_eq!(u64_to_dec(65535), "65535");
    assert_eq!(u64_to_dec(10), "10");
    assert_eq!(i64_to_dec(-42), "-42");
    assert_eq!(i64_to_dec(7), "7");
    assert_eq!(i64_to_dec(i64::MIN), "-9223372036854775808");
}

#[test]
fn parse_u16_accepts_digits_and_plus() {
    assert_eq!(parse_u16("10"), Some(10));
    assert_eq!(parse_u16("+7"), Some(7));
    assert_eq!(parse_u16("65535"), Some(65535));
    assert_eq!(parse_u16("0"), Some(0));
}

#[test]
fn parse_u16_rejects_bad_tokens() {
    assert_eq!(parse_u16(""), None);
    assert_eq!(parse_u16("+"), None);
    assert_eq!(parse_u16("65536"), None);
    assert_eq!(parse_u16("99999999999999999999"), None);
    assert_eq!(parse_u16("1a"), None);
    assert_eq!(parse_u16("-1"), None);
    assert_eq!(parse_u16("1.5"), None);
}

#[test]
fn lowercase_maps_ascii_letters_only() {
    assert_eq!(lowercase("AdMiN"), "admin");
    assert_eq!(lowercase("already_lower-1"), "already_lower-1");
}

#[test]
fn str_eq_is_exact() {
    assert!(str_eq("!play", "!play"));
    assert!(!str_eq("!play", "!plays"));
    assert!(!str_eq("!play", "!PLAY"));
}
