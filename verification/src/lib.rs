//! Market data from the exchange's public API: the symbol catalog, candle
//! intervals, kline decoding and the decisions of the client that ties them
//! together. Network transport and number parsing are the caller's part; what
//! they yield comes in as plain values.

pub mod catalog;
pub mod client;
pub mod error;
pub mod interval;
pub mod kline;
pub mod table;
