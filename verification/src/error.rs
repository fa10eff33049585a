//! The failures that the client reports.

use vstd::prelude::*;

verus! {

/// One of the five decimal strings of a candle.
#[derive(Clone, Copy, Debug, PartialEq, Eq, Structural)]
pub enum KlineField {
    Open,
    High,
    Low,
    Close,
    Volume,
}

/// What the transport reported when a request did not succeed.
#[derive(Debug, PartialEq, Eq)]
pub struct TransportFailure {
    /// The HTTP status, where a response arrived at all.
    pub status: Option<u16>,
    /// The transport's own description of the failure.
    pub detail: String,
}

impl Clone for TransportFailure {
    fn clone(&self) -> (r: Self)
        ensures
            r == *self,
    {
        TransportFailure { status: self.status, detail: self.detail.clone() }
    }
}

/// Why a batch of candles gave no table.
#[derive(Clone, Copy, Debug, PartialEq, Eq, Structural)]
pub enum DecodeFailure {
    /// A decimal string could not be parsed. This names the first one: the
    /// index of its candle in the batch and the string within that candle.
    Unparsed { row: usize, field: KlineField },
    /// The columns are not all of one length.
    UnequalColumns,
}

/// Every way in which a request to the client can fail.
#[derive(Debug, PartialEq, Eq)]
pub enum BinanceError {
    /// The symbol is not in the catalog.
    SymbolNotFound(String),
    /// The unit and magnitude are not an interval that the exchange offers.
    IntervalNotSupported,
    /// The transport could not complete a request.
    RequestFailure(TransportFailure),
    /// The candles received do not make a table.
    DecodeError(DecodeFailure),
}

impl Clone for BinanceError {
    fn clone(&self) -> (r: Self)
        ensures
            r == *self,
    {
        match self {
            BinanceError::SymbolNotFound(id) => BinanceError::SymbolNotFound(id.clone()),
            BinanceError::IntervalNotSupported => BinanceError::IntervalNotSupported,
            BinanceError::RequestFailure(failure) => BinanceError::RequestFailure(failure.clone()),
            BinanceError::DecodeError(failure) => BinanceError::DecodeError(*failure),
        }
    }
}

} // verus!
