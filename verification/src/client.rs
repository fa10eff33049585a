//! The decisions of the client: how it comes into being and what it does
//! with a request for candles. The client never touches the network itself.
//! It says which endpoint is to be asked, and is told what came back.

use vstd::prelude::*;
use crate::catalog::{listing_index, Exchange, ExchangeData};
use crate::error::{BinanceError, DecodeFailure, TransportFailure};
use crate::interval::Interval;
use crate::kline::{all_parsable_by, decoded_rows, decoding_fails, Klines};
use crate::table::CandleTable;

verus! {

/// The most candles that one request asks for.
pub const KLINE_LIMIT: u32 = 1000;

/// The endpoints of the exchange that the client uses.
#[derive(Clone, Copy, Debug, PartialEq, Eq, Structural)]
pub enum Endpoint {
    /// The connectivity check.
    Ping,
    /// The listing of all symbols.
    ExchangeInfo,
    /// The candles of one symbol.
    Klines,
}

impl Endpoint {
    /// The address of each endpoint.
    pub open spec fn address(self) -> Seq<char> {
        match self {
            Endpoint::Ping => "https://api.binance.com/api/v3/ping"@,
            Endpoint::ExchangeInfo => "https://api.binance.com/api/v3/exchangeInfo"@,
            Endpoint::Klines => "https://api.binance.com/api/v3/klines"@,
        }
    }

    /// The address to send the request to.
    pub fn url(self) -> (r: &'static str)
        ensures
            r@ == self.address(),
    {
        match self {
            Endpoint::Ping => "https://api.binance.com/api/v3/ping",
            Endpoint::ExchangeInfo => "https://api.binance.com/api/v3/exchangeInfo",
            Endpoint::Klines => "https://api.binance.com/api/v3/klines",
        }
    }
}

/// A point in time from which candles are wanted, in milliseconds since the
/// epoch. It lies neither before the epoch nor, when it was made, in the
/// future.
#[derive(Clone, Copy, Debug, PartialEq, Eq)]
pub struct Since {
    millis: i64,
}

impl Since {
    #[verifier::type_invariant]
    spec fn not_before_epoch(self) -> bool {
        self.millis >= 0
    }

    /// The milliseconds since the epoch.
    pub closed spec fn value(self) -> i64 {
        self.millis
    }

    /// Whether a time is acceptable at the moment `now_millis`.
    pub open spec fn admissible(millis: i64, now_millis: i64) -> bool {
        0 <= millis <= now_millis
    }

    /// Accepts a time that lies neither before the epoch nor after
    /// `now_millis`, the current time.
    pub fn new(millis: i64, now_millis: i64) -> (r: Option<Since>)
        ensures
            match r {
                Some(since) => Self::admissible(millis, now_millis) && since.value() == millis,
                None => !Self::admissible(millis, now_millis),
            },
    {
        if 0 <= millis && millis <= now_millis {
            Some(Since { millis })
        } else {
            None
        }
    }

    /// The milliseconds since the epoch.
    pub fn millis(&self) -> (r: i64)
        ensures
            r == self.value(),
            r >= 0,
    {
        proof {
            use_type_invariant(self);
        }
        self.millis
    }
}

/// The query of a request for candles.
#[derive(Debug, PartialEq, Eq)]
pub struct KlineQuery {
    /// The symbol, as the catalog has it.
    pub symbol: String,
    /// The interval's token.
    pub interval: &'static str,
    /// The most candles to return.
    pub limit: u32,
}

/// A client in the making that waits for the answer to its connectivity
/// check.
pub struct AwaitingPing {
    _private: (),
}

/// A client in the making whose connectivity check succeeded and that waits
/// for the listing of symbols.
pub struct AwaitingListing {
    _private: (),
}

/// The client, ready for requests. It owns the catalog that was loaded when
/// it was made, and never changes it.
pub struct BinanceClient {
    exchange: Exchange,
}

impl AwaitingPing {
    /// The endpoint to ask now.
    pub fn request(&self) -> (r: Endpoint)
        ensures
            r == Endpoint::Ping,
    {
        Endpoint::Ping
    }

    /// Takes the outcome of the connectivity check. A failure ends the
    /// making of the client; the listing is then never asked for.
    pub fn answered(self, outcome: Result<(), TransportFailure>) -> (r: Result<
        AwaitingListing,
        BinanceError,
    >)
        ensures
            match outcome {
                Ok(_) => r is Ok,
                Err(failure) => r == Err::<AwaitingListing, BinanceError>(
                    BinanceError::RequestFailure(failure),
                ),
            },
    {
        match outcome {
            Ok(_) => Ok(AwaitingListing { _private: () }),
            Err(failure) => Err(BinanceError::RequestFailure(failure)),
        }
    }
}

impl AwaitingListing {
    /// The endpoint to ask now.
    pub fn request(&self) -> (r: Endpoint)
        ensures
            r == Endpoint::ExchangeInfo,
    {
        Endpoint::ExchangeInfo
    }

    /// Takes the outcome of the listing request. From a listing the catalog
    /// is built and the client is ready; a failure ends the making of the
    /// client.
    pub fn answered(self, outcome: Result<ExchangeData, TransportFailure>) -> (r: Result<
        BinanceClient,
        BinanceError,
    >)
        ensures
            match outcome {
                Ok(data) => r matches Ok(client) && client.catalog().index() == listing_index(
                    data.symbols@,
                ) && client.catalog().timezone_id() == data.timezone@
                    && client.catalog().loaded_at() == data.server_time,
                Err(failure) => r == Err::<BinanceClient, BinanceError>(
                    BinanceError::RequestFailure(failure),
                ),
            },
    {
        match outcome {
            Ok(data) => Ok(BinanceClient { exchange: Exchange::from_listing(data) }),
            Err(failure) => Err(BinanceError::RequestFailure(failure)),
        }
    }
}

impl BinanceClient {
    /// Begins the making of a client. The first thing to do is the
    /// connectivity check.
    pub fn connect() -> (r: AwaitingPing) {
        AwaitingPing { _private: () }
    }

    /// The catalog that the client was made with.
    pub closed spec fn catalog(&self) -> Exchange {
        self.exchange
    }

    /// The catalog that the client was made with.
    pub fn exchange(&self) -> (r: &Exchange)
        ensures
            *r == self.catalog(),
    {
        &self.exchange
    }

    /// Checks a request for candles and gives the query to send to
    /// `Endpoint::Klines`. The symbol is checked first: where it is unknown
    /// the answer is `SymbolNotFound`, whatever the interval. The time from
    /// which candles are wanted has no part in the query.
    pub fn symbol_data_request(&self, symbol: &str, interval: Interval, _since: Since) -> (r: Result<
        KlineQuery,
        BinanceError,
    >)
        ensures
            match r {
                Ok(query) => self.catalog().index().contains_key(symbol@) && interval.wire_token()
                    == Some(query.interval@) && query.symbol@ == symbol@ && query.limit
                    == KLINE_LIMIT,
                Err(BinanceError::SymbolNotFound(missing)) => !self.catalog().index().contains_key(
                    symbol@,
                ) && missing@ == symbol@,
                Err(BinanceError::IntervalNotSupported) => self.catalog().index().contains_key(
                    symbol@,
                ) && interval.wire_token() is None,
                Err(_) => false,
            },
    {
        match self.exchange.lookup(symbol) {
            Ok(_) => {},
            Err(e) => {
                return Err(e);
            },
        }
        match interval.to_wire_token() {
            Ok(token) => Ok(KlineQuery { symbol: symbol.to_owned(), interval: token, limit: KLINE_LIMIT }),
            Err(e) => Err(e),
        }
    }

    /// Takes the outcome of the request for candles. A failure of the
    /// transport is passed on; candles are decoded with `parse`.
    pub fn symbol_data_response<V, F: Fn(&String) -> Option<V>>(
        outcome: Result<Klines, TransportFailure>,
        parse: F,
    ) -> (r: Result<CandleTable<V>, BinanceError>)
        requires
            outcome matches Ok(klines) ==> all_parsable_by(klines@, parse),
        ensures
            match outcome {
                Ok(klines) => match r {
                    Ok(table) => decoded_rows(parse, klines@, table@),
                    Err(BinanceError::DecodeError(DecodeFailure::Unparsed { row, field })) =>
                        decoding_fails::<V, F>(parse, klines@, row, field),
                    Err(_) => false,
                },
                Err(failure) => r == Err::<CandleTable<V>, BinanceError>(
                    BinanceError::RequestFailure(failure),
                ),
            },
    {
        match outcome {
            Ok(klines) => klines.decode(parse),
            Err(failure) => Err(BinanceError::RequestFailure(failure)),
        }
    }
}

} // verus!
