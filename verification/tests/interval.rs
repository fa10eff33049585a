use binance_client::error::BinanceError;
use binance_client::interval::Interval;

#[test]
fn every_supported_interval_has_its_token() {
    let table = vec![
        (Interval::Minutes(1), "1m"),
        (Interval::Minutes(3), "3m"),
        (Interval::Minutes(5), "5m"),
        (Interval::Minutes(15), "15m"),
        (Interval::Minutes(30), "30m"),
        (Interval::Hours(1), "1h"),
        (Interval::Hours(2), "2h"),
        (Interval::Hours(4), "4h"),
        (Interval::Hours(6), "6h"),
        (Interval::Hours(8), "8h"),
        (Interval::Hours(12), "12h"),
        (Interval::Days(1), "1d"),
        (Interval::Days(3), "3d"),
        (Interval::Weeks(1), "1w"),
        (Interval::Months(1), "1M"),
    ];
    for (interval, token) in table {
        assert!(interval.supported());
        assert_eq!(interval.to_wire_token(), Ok(token));
    }
}

#[test]
fn month_and_minute_differ_by_case_only() {
    assert_eq!(Interval::Months(1).to_wire_token(), Ok("1M"));
    assert_eq!(Interval::Minutes(1).to_wire_token(), Ok("1m"));
    assert_ne!(Interval::Months(1).to_wire_token(), Interval::Minutes(1).to_wire_token());
}

#[test]
fn unsupported_magnitudes_are_refused() {
    let refused = vec![
        Interval::Minutes(0),
        Interval::Minutes(2),
        Interval::Minutes(60),
        Interval::Hours(0),
        Interval::Hours(3),
        Interval::Hours(24),
        Interval::Days(2),
        Interval::Days(7),
        Interval::Weeks(0),
        Interval::Weeks(2),
        Interval::Months(0),
        Interval::Months(3),
        Interval::Months(255),
    ];
    for interval in refused {
        assert!(!interval.supported());
        assert_eq!(interval.to_wire_token(), Err(BinanceError::IntervalNotSupported));
    }
}

#[test]
fn exactly_fifteen_intervals_are_supported() {
    let mut count = 0;
    for n in 0..=255u8 {
        for interval in [
            Interval::Minutes(n),
            Interval::Hours(n),
            Interval::Days(n),
            Interval::Weeks(n),
            Interval::Months(n),
        ] {
            assert_eq!(interval.supported(), interval.to_wire_token().is_ok());
            if interval.supported() {
                count += 1;
            }
        }
    }
    assert_eq!(count, 15);
}

#[test]
fn tokens_of_supported_intervals_are_pairwise_distinct() {
    let mut tokens: Vec<&'static str> = Vec::new();
    for n in 0..=255u8 {
        for interval in [
            Interval::Minutes(n),
            Interval::Hours(n),
            Interval::Days(n),
            Interval::Weeks(n),
            Interval::Months(n),
        ] {
            if let Ok(token) = interval.to_wire_token() {
                assert!(!tokens.contains(&token));
                tokens.push(token);
            }
        }
    }
    assert_eq!(tokens.len(), 15);
}
