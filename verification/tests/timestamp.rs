use cold_chain::timestamp::Timestamp;

#[test]
fn test_to_dhms() {
    let ts = Timestamp { seconds: 93784 };
    assert_eq!(ts.to_dhms(), (1, 2, 3, 4));
}

#[test]
fn test_create_iso8601_str() {
    let ts = Timestamp { seconds: 93784 };
    assert_eq!(ts.create_iso8601_str().as_str(), "P1DT2H3M4S");
    let ts = Timestamp { seconds: 0 };
    assert_eq!(ts.create_iso8601_str().as_str(), "P0DT0S");
}

#[test]
fn test_parse_duration() {
    let parsed = Timestamp::parse_duration("P1DT2H3M4S");
    assert_eq!(parsed, Some((1, 2, 3, 4)));
    let parsed = Timestamp::parse_duration("P0DT0S");
    assert_eq!(parsed, Some((0, 0, 0, 0)));
    let parsed = Timestamp::parse_duration("P2DT3H4M5");
    assert_eq!(parsed, None); // Invalid format, missing seconds.
}

#[test]
fn test_get_last_short_sample_end() {
    // 93784 seconds: 93784 / 900 = 104 remainder 184, so prev period end is (93784/900)*900 = 93600
    let ts = Timestamp { seconds: 93784 };
    let end = ts.get_last_short_sample_end();
    assert_eq!(end.seconds, 93600);

    // Exactly on a period boundary
    let ts = Timestamp { seconds: 900 };
    let end = ts.get_last_short_sample_end();
    assert_eq!(end.seconds, 900);

    // At zero
    let ts = Timestamp { seconds: 0 };
    let end = ts.get_last_short_sample_end();
    assert_eq!(end.seconds, 0);
}

#[test]
fn test_get_last_long_sample_end() {
    // 93784 seconds: 8*3600 = 28800, 93784 / 28800 = 3, so 3*28800 = 86400
    let ts = Timestamp { seconds: 93784 };
    let end = ts.get_last_long_sample_end();
    assert_eq!(end.seconds, 86400);

    // Exactly on a period boundary
    let ts = Timestamp { seconds: 28800 };
    let end = ts.get_last_long_sample_end();
    assert_eq!(end.seconds, 28800);

    // At zero
    let ts = Timestamp { seconds: 0 };
    let end = ts.get_last_long_sample_end();
    assert_eq!(end.seconds, 0);
}

#[test]
fn test_long_sample_end_never_after_short_sample_end() {
    // Test a range of timestamps, including boundaries and other values
    for &seconds in &[0, 1, 899, 900, 901, 28799, 28800, 28801, 93784, 100000, 123456] {
        let ts = Timestamp { seconds };
        let short_end = ts.get_last_short_sample_end().seconds;
        let long_end = ts.get_last_long_sample_end().seconds;
        assert!(
            long_end <= short_end,
            "long_end={} > short_end={} for seconds={}",
            long_end,
            short_end,
            seconds
        );
    }
}

#[test]
fn test_parse_duration_rejections() {
    // No leading P.
    assert_eq!(Timestamp::parse_duration("1DT2H3M4S"), None);
    // Empty input.
    assert_eq!(Timestamp::parse_duration(""), None);
    // Missing DT section.
    assert_eq!(Timestamp::parse_duration("P1T2H3M4S"), None);
    // Missing hour marker.
    assert_eq!(Timestamp::parse_duration("P1DT2M4S"), None);
    // Trailing characters after the seconds marker.
    assert_eq!(Timestamp::parse_duration("P1DT2H3M4S5"), None);
    // An empty field.
    assert_eq!(Timestamp::parse_duration("P1DT2HM4S"), None);
    // A non-numeric field.
    assert_eq!(Timestamp::parse_duration("P1DT2Hx3M4S"), None);
    // A sign is not a digit.
    assert_eq!(Timestamp::parse_duration("P+1DT2H3M4S"), None);
    // A field too large for a u32.
    assert_eq!(Timestamp::parse_duration("P4294967296DT0H0M1S"), None);
    // The largest u32 still fits.
    assert_eq!(
        Timestamp::parse_duration("P4294967295DT0H0M1S"),
        Some((4294967295, 0, 0, 1))
    );
    // Leading zeros are digits like any other.
    assert_eq!(Timestamp::parse_duration("P01DT00H00M07S"), Some((1, 0, 0, 7)));
    // Anything starting with the zero literal takes the fast path.
    assert_eq!(Timestamp::parse_duration("P0DT0Stail"), Some((0, 0, 0, 0)));
    // A positive whole number of days encodes without a time part, a form
    // the decoder does not accept.
    assert_eq!(Timestamp::parse_duration("P2DT0S"), None);
}

#[test]
fn test_iso8601_whole_days() {
    // A positive whole number of days keeps the day part only.
    let ts = Timestamp { seconds: 2 * 86400 };
    assert_eq!(ts.create_iso8601_str().as_str(), "P2DT0S");
    // One second past a whole day brings the time part back, and the codec
    // round-trips again.
    let ts = Timestamp { seconds: 2 * 86400 + 1 };
    assert_eq!(ts.create_iso8601_str().as_str(), "P2DT0H0M1S");
    assert_eq!(
        Timestamp::parse_duration(ts.create_iso8601_str().as_str()),
        Some((2, 0, 0, 1))
    );
}
