use binance_client::catalog::{ExchangeData, Symbol};
use binance_client::client::{BinanceClient, Endpoint, KlineQuery, Since, KLINE_LIMIT};
use binance_client::error::{BinanceError, DecodeFailure, KlineField, TransportFailure};
use binance_client::interval::Interval;
use binance_client::kline::{Kline, Klines};

fn single(text: &String) -> Option<f32> {
    text.parse::<f32>().ok()
}

fn btcusdt() -> Symbol {
    Symbol {
        symbol: "BTCUSDT".to_string(),
        status: "TRADING".to_string(),
        base_asset: "BTC".to_string(),
        base_asset_precision: 8,
        quote_asset: "USDT".to_string(),
        quote_precision: 2,
        order_types: vec!["LIMIT".to_string(), "MARKET".to_string()],
        iceberg_allowed: true,
        oco_allowed: true,
        quote_order_qty_market_allowed: true,
        is_spot_trading_allowed: true,
        is_margin_trading_allowed: true,
        permissions: vec!["SPOT".to_string(), "MARGIN".to_string()],
    }
}

fn ready_client() -> BinanceClient {
    let listing = ExchangeData {
        timezone: "UTC".to_string(),
        server_time: 1_700_000_000_000,
        symbols: vec![btcusdt()],
    };
    let loading = match BinanceClient::connect().answered(Ok(())) {
        Ok(loading) => loading,
        Err(e) => panic!("{:?}", e),
    };
    match loading.answered(Ok(listing)) {
        Ok(client) => client,
        Err(e) => panic!("{:?}", e),
    }
}

fn kline(open_time: i64, decimals: [&str; 5], close_time: i64) -> Kline {
    Kline {
        open_time,
        open: decimals[0].to_string(),
        high: decimals[1].to_string(),
        low: decimals[2].to_string(),
        close: decimals[3].to_string(),
        volume: decimals[4].to_string(),
        close_time,
        quote_asset_volume: "0".to_string(),
        number_of_trades: 1,
        taker_buy_base_volume: "0".to_string(),
        taker_buy_quote_volume: "0".to_string(),
        unused: "0".to_string(),
    }
}

fn timeout() -> TransportFailure {
    TransportFailure { status: None, detail: "operation timed out".to_string() }
}

fn a_while_ago() -> Since {
    Since::new(1_600_000_000_000, 1_700_000_000_000).unwrap()
}

#[test]
fn endpoints_have_their_addresses() {
    assert_eq!(Endpoint::Ping.url(), "https://api.binance.com/api/v3/ping");
    assert_eq!(Endpoint::ExchangeInfo.url(), "https://api.binance.com/api/v3/exchangeInfo");
    assert_eq!(Endpoint::Klines.url(), "https://api.binance.com/api/v3/klines");
}

#[test]
fn making_a_client_pings_first_and_lists_second() {
    let pinging = BinanceClient::connect();
    assert_eq!(pinging.request(), Endpoint::Ping);
    let loading = match pinging.answered(Ok(())) {
        Ok(loading) => loading,
        Err(e) => panic!("{:?}", e),
    };
    assert_eq!(loading.request(), Endpoint::ExchangeInfo);
}

#[test]
fn a_failed_ping_makes_no_client() {
    let refused = TransportFailure { status: Some(503), detail: "Service Unavailable".to_string() };
    match BinanceClient::connect().answered(Err(refused.clone())) {
        Ok(_) => panic!("the listing must not be asked for"),
        Err(e) => assert_eq!(e, BinanceError::RequestFailure(refused)),
    }
    match BinanceClient::connect().answered(Err(timeout())) {
        Ok(_) => panic!("the listing must not be asked for"),
        Err(e) => assert_eq!(e, BinanceError::RequestFailure(timeout())),
    }
}

#[test]
fn a_failed_listing_makes_no_client() {
    let loading = match BinanceClient::connect().answered(Ok(())) {
        Ok(loading) => loading,
        Err(e) => panic!("{:?}", e),
    };
    let garbled = TransportFailure { status: None, detail: "error decoding response body".to_string() };
    match loading.answered(Err(garbled.clone())) {
        Ok(_) => panic!("no catalog was loaded"),
        Err(e) => assert_eq!(e, BinanceError::RequestFailure(garbled)),
    }
}

#[test]
fn the_client_owns_the_catalog_of_the_listing() {
    let client = ready_client();
    assert_eq!(client.exchange().len(), 1);
    assert_eq!(client.exchange().timezone(), "UTC");
    assert_eq!(client.exchange().server_time(), 1_700_000_000_000);
    let found = client.exchange().lookup("BTCUSDT").unwrap();
    assert_eq!(found.base_asset_precision, 8);
    assert_eq!(found.quote_precision, 2);
}

#[test]
fn a_valid_request_gives_the_query() {
    let client = ready_client();
    assert_eq!(
        client.symbol_data_request("BTCUSDT", Interval::Minutes(1), a_while_ago()),
        Ok(KlineQuery { symbol: "BTCUSDT".to_string(), interval: "1m", limit: 1000 })
    );
    assert_eq!(
        client.symbol_data_request("BTCUSDT", Interval::Months(1), a_while_ago()),
        Ok(KlineQuery { symbol: "BTCUSDT".to_string(), interval: "1M", limit: KLINE_LIMIT })
    );
    assert_eq!(KLINE_LIMIT, 1000);
}

#[test]
fn since_has_no_part_in_the_query() {
    let client = ready_client();
    let early = Since::new(0, 1_700_000_000_000).unwrap();
    let late = Since::new(1_700_000_000_000, 1_700_000_000_000).unwrap();
    assert_eq!(
        client.symbol_data_request("BTCUSDT", Interval::Hours(4), early),
        client.symbol_data_request("BTCUSDT", Interval::Hours(4), late)
    );
}

#[test]
fn an_unknown_symbol_is_reported_before_the_interval() {
    let client = ready_client();
    for interval in [Interval::Minutes(2), Interval::Hours(3), Interval::Weeks(9), Interval::Minutes(1)] {
        assert_eq!(
            client.symbol_data_request("DOGEUSDT", interval, a_while_ago()),
            Err(BinanceError::SymbolNotFound("DOGEUSDT".to_string()))
        );
    }
}

#[test]
fn an_unsupported_interval_of_a_known_symbol_is_refused() {
    let client = ready_client();
    assert_eq!(
        client.symbol_data_request("BTCUSDT", Interval::Minutes(2), a_while_ago()),
        Err(BinanceError::IntervalNotSupported)
    );
    assert_eq!(
        client.symbol_data_request("BTCUSDT", Interval::Hours(3), a_while_ago()),
        Err(BinanceError::IntervalNotSupported)
    );
}

#[test]
fn a_failed_request_leaves_the_catalog_usable() {
    let client = ready_client();
    assert!(client.symbol_data_request("DOGEUSDT", Interval::Minutes(1), a_while_ago()).is_err());
    assert!(client.symbol_data_request("BTCUSDT", Interval::Days(2), a_while_ago()).is_err());
    assert!(client.symbol_data_request("BTCUSDT", Interval::Days(1), a_while_ago()).is_ok());
    assert_eq!(client.exchange().len(), 1);
}

#[test]
fn three_candles_from_the_transport_give_three_rows() {
    let client = ready_client();
    let query = client.symbol_data_request("BTCUSDT", Interval::Minutes(1), a_while_ago()).unwrap();
    assert_eq!(query.symbol, "BTCUSDT");
    assert_eq!(query.interval, "1m");
    assert_eq!(query.limit, 1000);
    let answer = vec![
        kline(1_700_000_000_000, ["35000.01", "35010.50", "34990.00", "35005.25", "12.345"], 1_700_000_059_999),
        kline(1_700_000_060_000, ["35005.25", "35020.00", "35000.00", "35015.75", "8.5"], 1_700_000_119_999),
        kline(1_700_000_120_000, ["35015.75", "35015.75", "34980.10", "34985.00", "20.0625"], 1_700_000_179_999),
    ];
    let table = BinanceClient::symbol_data_response(Ok(Klines(answer)), single).unwrap();
    assert_eq!(table.len(), 3);
    let times = table.open_time();
    assert!(times.windows(2).all(|pair| pair[0] <= pair[1]));
    assert_eq!(*times, vec![1_700_000_000_000, 1_700_000_060_000, 1_700_000_120_000]);
    assert_eq!(*table.close_time(), vec![1_700_000_059_999, 1_700_000_119_999, 1_700_000_179_999]);
    assert_eq!(*table.open(), vec![35000.01_f32, 35005.25, 35015.75]);
    assert_eq!(*table.high(), vec![35010.50_f32, 35020.00, 35015.75]);
    assert_eq!(*table.low(), vec![34990.00_f32, 35000.00, 34980.10]);
    assert_eq!(*table.close(), vec![35005.25_f32, 35015.75, 34985.00]);
    assert_eq!(*table.volume(), vec![12.345_f32, 8.5, 20.0625]);
}

#[test]
fn a_transport_failure_of_the_candle_request_is_passed_on() {
    let limited = TransportFailure { status: Some(429), detail: "Too Many Requests".to_string() };
    assert_eq!(
        BinanceClient::symbol_data_response(Err(limited.clone()), single).unwrap_err(),
        BinanceError::RequestFailure(limited)
    );
}

#[test]
fn a_decode_failure_of_the_answer_is_passed_on() {
    let answer = vec![
        kline(0, ["1", "2", "0.5", "1.5", "10"], 59_999),
        kline(60_000, ["1.5", "2", "1", "NaN?", "10"], 119_999),
    ];
    assert_eq!(
        BinanceClient::symbol_data_response(Ok(Klines(answer)), single).unwrap_err(),
        BinanceError::DecodeError(DecodeFailure::Unparsed { row: 1, field: KlineField::Close })
    );
}

#[test]
fn since_lies_between_the_epoch_and_now() {
    let now = 1_700_000_000_000;
    assert_eq!(Since::new(0, now).unwrap().millis(), 0);
    assert_eq!(Since::new(now, now).unwrap().millis(), now);
    assert_eq!(Since::new(1, now).unwrap().millis(), 1);
    assert_eq!(Since::new(-1, now), None);
    assert_eq!(Since::new(now + 1, now), None);
    assert_eq!(Since::new(i64::MIN, now), None);
    assert_eq!(Since::new(i64::MAX, now), None);
    assert_eq!(Since::new(i64::MAX, i64::MAX).unwrap().millis(), i64::MAX);
    assert_eq!(Since::new(0, 0).unwrap().millis(), 0);
    assert_eq!(Since::new(0, -1), None);
}

#[test]
fn errors_can_be_cloned() {
    let errors = vec![
        BinanceError::SymbolNotFound("BTCUSDT".to_string()),
        BinanceError::IntervalNotSupported,
        BinanceError::RequestFailure(timeout()),
        BinanceError::DecodeError(DecodeFailure::Unparsed { row: 3, field: KlineField::Volume }),
        BinanceError::DecodeError(DecodeFailure::UnequalColumns),
    ];
    for e in errors {
        assert_eq!(e.clone(), e);
    }
}
