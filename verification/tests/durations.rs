//! The duration notation: parsing and canonical formatting.

use cloud_client::duration::{parse_duration, Duration};

#[test]
fn parses_seconds_with_unit_word() {
    assert_eq!(parse_duration("90 seconds"), Some(Duration::from_secs(90)));
    assert_eq!(parse_duration("95 seconds"), Some(Duration::from_secs(95)));
    assert_eq!(parse_duration("30s"), Some(Duration::from_secs(30)));
    assert_eq!(parse_duration("1 second"), Some(Duration::from_secs(1)));
}

#[test]
fn parses_other_units() {
    assert_eq!(parse_duration("5m"), Some(Duration::from_secs(300)));
    assert_eq!(parse_duration("2 hours"), Some(Duration::from_secs(7200)));
    assert_eq!(parse_duration("1d"), Some(Duration::from_secs(86_400)));
    assert_eq!(parse_duration("1w"), Some(Duration::from_secs(604_800)));
    assert_eq!(
        parse_duration("1500ms"),
        Some(Duration::new(1, 500_000_000))
    );
    assert_eq!(parse_duration("250us"), Some(Duration::new(0, 250_000)));
    assert_eq!(parse_duration("7ns"), Some(Duration::new(0, 7)));
}

#[test]
fn parses_multiple_groups() {
    assert_eq!(
        parse_duration("1s 500ms"),
        Some(Duration::new(1, 500_000_000))
    );
    assert_eq!(
        parse_duration("  2m 30s "),
        Some(Duration::from_secs(150))
    );
}

#[test]
fn rejects_malformed_notation() {
    assert_eq!(parse_duration(""), None);
    assert_eq!(parse_duration("   "), None);
    assert_eq!(parse_duration("10"), None);
    assert_eq!(parse_duration("seconds"), None);
    assert_eq!(parse_duration("10 lightyears"), None);
    assert_eq!(parse_duration("-5s"), None);
    assert_eq!(parse_duration("1.5s"), None);
}

#[test]
fn rejects_unrepresentable_lengths() {
    // more nanoseconds than any representable duration holds
    assert_eq!(parse_duration("99999999999999999999999999999999ns"), None);
    assert_eq!(parse_duration("18446744073709551616s"), None);
}

#[test]
fn formats_whole_seconds_canonically() {
    assert_eq!(Duration::from_secs(30).format(), "30s");
    assert_eq!(Duration::from_secs(0).format(), "0s");
    assert_eq!(
        Duration::from_secs(u64::MAX).format(),
        format!("{}s", u64::MAX)
    );
}

#[test]
fn formats_subsecond_lengths_as_nanoseconds() {
    assert_eq!(Duration::new(1, 500_000_000).format(), "1500000000ns");
    assert_eq!(Duration::new(0, 7).format(), "7ns");
}

#[test]
fn canonical_form_parses_back() {
    for d in [
        Duration::from_secs(0),
        Duration::from_secs(30),
        Duration::from_secs(90),
        Duration::new(1, 500_000_000),
        Duration::new(12, 34),
        Duration::from_secs(u64::MAX),
    ] {
        assert_eq!(parse_duration(&d.format()), Some(d));
    }
}

#[test]
fn parses_month_and_year_words() {
    assert_eq!(
        parse_duration("1 month"),
        Some(Duration::from_secs(2_630_016))
    );
    assert_eq!(
        parse_duration("2 years"),
        Some(Duration::from_secs(63_115_200))
    );
}
