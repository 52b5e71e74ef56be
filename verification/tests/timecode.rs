use minify::text::chars_of;
use minify::timecode::{parse_clock, parse_fallback_duration};

const SECOND: u64 = 1_000_000;

fn fallback(s: &str) -> Option<u64> {
    parse_fallback_duration(&chars_of(s))
}

fn clock(s: &str) -> Option<u64> {
    parse_clock(&chars_of(s))
}

#[test]
fn timecode_of_three_fields_is_hours_minutes_seconds() {
    assert_eq!(fallback("01:02:03"), Some(3723 * SECOND));
}

#[test]
fn timecode_of_two_fields_is_minutes_seconds() {
    assert_eq!(fallback("02:03"), Some(123 * SECOND));
}

#[test]
fn a_field_that_is_no_number_cuts_the_timecode() {
    assert_eq!(fallback("ab:02:03"), Some(123 * SECOND));
    assert_eq!(fallback("01:ab:03"), Some(3 * SECOND));
    assert_eq!(fallback("01:02:ab"), Some(0));
    assert_eq!(fallback("07:ab:02:03"), Some(123 * SECOND));
    assert_eq!(fallback(":02:03"), Some(123 * SECOND));
    assert_eq!(fallback("01:02:03\n"), Some(0));
}

#[test]
fn timecode_of_four_fields_starts_with_days() {
    assert_eq!(fallback("1:00:00:00"), Some(86_400 * SECOND));
    assert_eq!(fallback("2:03:04:05.5"), Some((2 * 86_400 + 3 * 3600 + 4 * 60 + 5) * SECOND + 500_000));
}

#[test]
fn fields_left_of_the_days_are_not_counted() {
    assert_eq!(fallback("9:1:00:00:00"), Some(86_400 * SECOND));
    assert_eq!(fallback("xx:1:00:00:00"), Some(86_400 * SECOND));
}

#[test]
fn bare_seconds_are_a_duration() {
    assert_eq!(fallback("12.5"), Some(12_500_000));
    assert_eq!(fallback("3723"), Some(3723 * SECOND));
    assert_eq!(fallback("0"), Some(0));
}

#[test]
fn text_without_number_or_colon_is_no_duration() {
    assert_eq!(fallback(""), None);
    assert_eq!(fallback("abc"), None);
    assert_eq!(fallback("N/A"), None);
    assert_eq!(fallback("12.5\n"), None);
}

#[test]
fn a_duration_that_does_not_fit_is_none() {
    assert_eq!(fallback("300000000:00:00:00"), None);
    assert_eq!(fallback("18446744073709:00"), None);
    assert_eq!(fallback("0:18446744073709.551615"), Some(u64::MAX));
    assert_eq!(fallback("0:0:0:18446744073709.551615"), Some(u64::MAX));
    assert_eq!(fallback("0:0:1:18446744073709.551615"), None);
}

#[test]
fn clock_reads_hours_minutes_seconds() {
    assert_eq!(clock("00:01:02.5"), Some(62_500_000));
    assert_eq!(clock("00:00:01.500000"), Some(1_500_000));
    assert_eq!(clock("01:02:03"), Some(3723 * SECOND));
    assert_eq!(clock("12:00:00.000000"), Some(43_200 * SECOND));
    assert_eq!(clock("0:0:0"), Some(0));
}

#[test]
fn clock_looks_at_three_fields_only() {
    assert_eq!(clock("00:00:05:xx"), Some(5 * SECOND));
    assert_eq!(clock("00:00:05:"), Some(5 * SECOND));
    assert_eq!(clock("01:02:03:04:05"), Some(3723 * SECOND));
}

#[test]
fn clock_needs_three_numbers() {
    assert_eq!(clock(""), None);
    assert_eq!(clock("N/A"), None);
    assert_eq!(clock("01:02"), None);
    assert_eq!(clock("ab:02:03"), None);
    assert_eq!(clock("01:ab:03"), None);
    assert_eq!(clock("01:02:ab"), None);
    assert_eq!(clock("-00:00:00.033"), None);
    assert_eq!(clock("00:00:"), None);
}

#[test]
fn a_clock_that_does_not_fit_is_none() {
    assert_eq!(clock("0:0:18446744073709.551615"), Some(u64::MAX));
    assert_eq!(clock("0:1:18446744073709.551615"), None);
    assert_eq!(clock("18446744073709:0:0"), None);
}
