use metal_prices::config::{
    parse_seconds, refresh_interval, IntervalSource, RefreshInterval, DEFAULT_REFRESH_INTERVAL_SECS,
};

#[test]
fn default_interval_is_one_hour() {
    assert_eq!(DEFAULT_REFRESH_INTERVAL_SECS, 3600);
}

#[test]
fn absent_setting_gives_the_default() {
    assert_eq!(
        refresh_interval(None),
        RefreshInterval { secs: 3600, source: IntervalSource::Unset }
    );
}

#[test]
fn numeral_setting_is_taken_as_written() {
    assert_eq!(
        refresh_interval(Some("120")),
        RefreshInterval { secs: 120, source: IntervalSource::Configured }
    );
    assert_eq!(
        refresh_interval(Some("3600")),
        RefreshInterval { secs: 3600, source: IntervalSource::Configured }
    );
    assert_eq!(
        refresh_interval(Some("+45")),
        RefreshInterval { secs: 45, source: IntervalSource::Configured }
    );
    assert_eq!(
        refresh_interval(Some("18446744073709551615")),
        RefreshInterval { secs: u64::MAX, source: IntervalSource::Configured }
    );
}

#[test]
fn zero_is_no_interval() {
    for text in ["0", "+0", "000"] {
        assert_eq!(
            refresh_interval(Some(text)),
            RefreshInterval { secs: 3600, source: IntervalSource::Invalid },
            "setting {:?}",
            text
        );
    }
}

#[test]
fn unreadable_setting_gives_the_same_default_and_a_warning() {
    let unreadable = [
        "", "abc", "12a", "a12", " 5", "5 ", "-1", "+", "-", "++5", "1.5", "1e3", "0x10", "１２",
        "18446744073709551616",
    ];
    for text in unreadable {
        assert_eq!(
            refresh_interval(Some(text)),
            RefreshInterval { secs: 3600, source: IntervalSource::Invalid },
            "setting {:?}",
            text
        );
    }
}

#[test]
fn parse_seconds_reads_decimal_numerals() {
    assert_eq!(parse_seconds(b"0"), Some(0));
    assert_eq!(parse_seconds(b"7"), Some(7));
    assert_eq!(parse_seconds(b"007"), Some(7));
    assert_eq!(parse_seconds(b"+7"), Some(7));
    assert_eq!(parse_seconds(b"21600"), Some(21600));
    assert_eq!(parse_seconds(b"1234567890"), Some(1234567890));
}

#[test]
fn parse_seconds_stops_at_the_largest_count() {
    assert_eq!(parse_seconds(b"18446744073709551615"), Some(u64::MAX));
    assert_eq!(parse_seconds(b"+18446744073709551615"), Some(u64::MAX));
    assert_eq!(parse_seconds(b"00018446744073709551615"), Some(u64::MAX));
    assert_eq!(parse_seconds(b"18446744073709551616"), None);
    assert_eq!(parse_seconds(b"18446744073709551620"), None);
    assert_eq!(parse_seconds(b"99999999999999999999"), None);
    assert_eq!(parse_seconds(b"184467440737095516150"), None);
}

#[test]
fn parse_seconds_rejects_what_is_no_numeral() {
    assert_eq!(parse_seconds(b""), None);
    assert_eq!(parse_seconds(b"+"), None);
    assert_eq!(parse_seconds(b"-"), None);
    assert_eq!(parse_seconds(b"-5"), None);
    assert_eq!(parse_seconds(b"5+"), None);
    assert_eq!(parse_seconds(b"+-5"), None);
    assert_eq!(parse_seconds(b"/"), None);
    assert_eq!(parse_seconds(b":"), None);
    assert_eq!(parse_seconds(b"12 "), None);
    assert_eq!(parse_seconds(b"\t12"), None);
    assert_eq!(parse_seconds(&[0x31, 0xff]), None);
}

#[test]
fn parse_seconds_agrees_with_the_standard_parser() {
    let samples = [
        "", "+", "-", "0", "+0", "-0", "00", "9", "10", "+10", "-10", "3600", "21600", " 1", "1 ",
        "1_000", "18446744073709551615", "18446744073709551616", "٣", "1a", "a1", "+a",
    ];
    for text in samples {
        assert_eq!(parse_seconds(text.as_bytes()), text.parse::<u64>().ok(), "text {:?}", text);
    }
}
