use binance_client::catalog::{Exchange, ExchangeData, Symbol};
use binance_client::error::BinanceError;

fn symbol(id: &str, status: &str, base_precision: u8, quote_precision: u8) -> Symbol {
    Symbol {
        symbol: id.to_string(),
        status: status.to_string(),
        base_asset: "BTC".to_string(),
        base_asset_precision: base_precision,
        quote_asset: "USDT".to_string(),
        quote_precision,
        order_types: vec!["LIMIT".to_string(), "MARKET".to_string()],
        iceberg_allowed: true,
        oco_allowed: true,
        quote_order_qty_market_allowed: false,
        is_spot_trading_allowed: true,
        is_margin_trading_allowed: false,
        permissions: vec!["SPOT".to_string()],
    }
}

fn listing(symbols: Vec<Symbol>) -> ExchangeData {
    ExchangeData { timezone: "UTC".to_string(), server_time: 1_700_000_000_000, symbols }
}

#[test]
fn lookup_finds_every_listed_symbol() {
    let ids = ["BTCUSDT", "ETHUSDT", "BNBBTC", "LTCBTC"];
    let catalog =
        Exchange::from_listing(listing(ids.iter().map(|id| symbol(id, "TRADING", 8, 2)).collect()));
    assert_eq!(catalog.len(), 4);
    for id in ids {
        let found = catalog.lookup(id).unwrap();
        assert_eq!(found.symbol, id);
        assert_eq!(*found, symbol(id, "TRADING", 8, 2));
    }
}

#[test]
fn lookup_of_an_absent_symbol_names_it() {
    let catalog = Exchange::from_listing(listing(vec![symbol("BTCUSDT", "TRADING", 8, 2)]));
    assert_eq!(
        catalog.lookup("DOGEUSDT"),
        Err(BinanceError::SymbolNotFound("DOGEUSDT".to_string()))
    );
    assert_eq!(catalog.lookup(""), Err(BinanceError::SymbolNotFound(String::new())));
}

#[test]
fn lookup_is_exact_and_case_sensitive() {
    let catalog = Exchange::from_listing(listing(vec![symbol("BTCUSDT", "TRADING", 8, 2)]));
    assert!(catalog.lookup("BTCUSDT").is_ok());
    assert_eq!(
        catalog.lookup("btcusdt"),
        Err(BinanceError::SymbolNotFound("btcusdt".to_string()))
    );
    assert_eq!(
        catalog.lookup("BTCUSDT "),
        Err(BinanceError::SymbolNotFound("BTCUSDT ".to_string()))
    );
    assert_eq!(catalog.lookup("BTCUSD"), Err(BinanceError::SymbolNotFound("BTCUSD".to_string())));
}

#[test]
fn a_later_entry_replaces_an_earlier_one_of_the_same_id() {
    let catalog = Exchange::from_listing(listing(vec![
        symbol("BTCUSDT", "TRADING", 8, 2),
        symbol("ETHUSDT", "TRADING", 8, 2),
        symbol("BTCUSDT", "BREAK", 6, 4),
    ]));
    assert_eq!(catalog.len(), 2);
    let found = catalog.lookup("BTCUSDT").unwrap();
    assert_eq!(found.status, "BREAK");
    assert_eq!(found.base_asset_precision, 6);
    assert_eq!(found.quote_precision, 4);
    assert_eq!(catalog.lookup("ETHUSDT").unwrap().status, "TRADING");
}

#[test]
fn an_empty_listing_gives_an_empty_catalog() {
    let catalog = Exchange::from_listing(listing(Vec::new()));
    assert_eq!(catalog.len(), 0);
    assert_eq!(
        catalog.lookup("BTCUSDT"),
        Err(BinanceError::SymbolNotFound("BTCUSDT".to_string()))
    );
}

#[test]
fn the_catalog_keeps_time_zone_and_server_time() {
    let catalog = Exchange::from_listing(ExchangeData {
        timezone: "Europe/Zurich".to_string(),
        server_time: 1_650_000_000_123,
        symbols: vec![symbol("BTCUSDT", "TRADING", 8, 2)],
    });
    assert_eq!(catalog.timezone(), "Europe/Zurich");
    assert_eq!(catalog.server_time(), 1_650_000_000_123);
}

#[test]
fn a_cloned_symbol_equals_its_source() {
    let source = symbol("BTCUSDT", "TRADING", 8, 2);
    let copy = source.clone();
    assert_eq!(copy, source);
    assert_eq!(copy.order_types, vec!["LIMIT".to_string(), "MARKET".to_string()]);
    assert_eq!(copy.permissions, vec!["SPOT".to_string()]);
}
