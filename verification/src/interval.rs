//! Candle intervals and the tokens that the exchange knows them by.

use vstd::prelude::*;
use crate::error::BinanceError;

verus! {

/// The span of one candle: a unit and a magnitude.
#[derive(Clone, Copy, Debug, PartialEq, Eq, Structural)]
pub enum Interval {
    Minutes(u8),
    Hours(u8),
    Days(u8),
    Weeks(u8),
    Months(u8),
}

impl Interval {
    /// The token of each interval that the exchange offers. A month is written
    /// with a capital letter, a minute with a small one.
    pub open spec fn wire_token(self) -> Option<Seq<char>> {
        match self {
            Interval::Minutes(1) => Some("1m"@),
            Interval::Minutes(3) => Some("3m"@),
            Interval::Minutes(5) => Some("5m"@),
            Interval::Minutes(15) => Some("15m"@),
            Interval::Minutes(30) => Some("30m"@),
            Interval::Hours(1) => Some("1h"@),
            Interval::Hours(2) => Some("2h"@),
            Interval::Hours(4) => Some("4h"@),
            Interval::Hours(6) => Some("6h"@),
            Interval::Hours(8) => Some("8h"@),
            Interval::Hours(12) => Some("12h"@),
            Interval::Days(1) => Some("1d"@),
            Interval::Days(3) => Some("3d"@),
            Interval::Weeks(1) => Some("1w"@),
            Interval::Months(1) => Some("1M"@),
            _ => None,
        }
    }

    /// Whether the exchange offers this interval.
    pub open spec fn is_supported(self) -> bool {
        match self {
            Interval::Minutes(n) => n == 1 || n == 3 || n == 5 || n == 15 || n == 30,
            Interval::Hours(n) => n == 1 || n == 2 || n == 4 || n == 6 || n == 8 || n == 12,
            Interval::Days(n) => n == 1 || n == 3,
            Interval::Weeks(n) => n == 1,
            Interval::Months(n) => n == 1,
        }
    }

    /// An interval has a token exactly when the exchange offers it.
    pub proof fn token_iff_supported(self)
        ensures
            self.wire_token() is Some <==> self.is_supported(),
    {
    }

    /// No two intervals share a token: the exchange can tell from the token
    /// alone which interval is meant.
    pub proof fn tokens_are_distinct(self, other: Interval)
        requires
            self.is_supported(),
            self != other,
        ensures
            self.wire_token() != other.wire_token(),
    {
        reveal_strlit("1m");
        reveal_strlit("3m");
        reveal_strlit("5m");
        reveal_strlit("15m");
        reveal_strlit("30m");
        reveal_strlit("1h");
        reveal_strlit("2h");
        reveal_strlit("4h");
        reveal_strlit("6h");
        reveal_strlit("8h");
        reveal_strlit("12h");
        reveal_strlit("1d");
        reveal_strlit("3d");
        reveal_strlit("1w");
        reveal_strlit("1M");
        if other.is_supported() {
            let a = self.wire_token()->0;
            let b = other.wire_token()->0;
            assert(a.len() != b.len() || a[0] != b[0] || a[a.len() - 1] != b[b.len() - 1] || a[1]
                != b[1]);
        }
    }

    /// Tells whether the exchange offers this interval.
    pub fn supported(&self) -> (r: bool)
        ensures
            r == self.is_supported(),
    {
        match *self {
            Interval::Minutes(n) => n == 1 || n == 3 || n == 5 || n == 15 || n == 30,
            Interval::Hours(n) => n == 1 || n == 2 || n == 4 || n == 6 || n == 8 || n == 12,
            Interval::Days(n) => n == 1 || n == 3,
            Interval::Weeks(n) => n == 1,
            Interval::Months(n) => n == 1,
        }
    }

    /// The token that stands for this interval in a query, or
    /// `IntervalNotSupported` where the exchange does not offer it.
    pub fn to_wire_token(self) -> (r: Result<&'static str, BinanceError>)
        ensures
            match r {
                Ok(token) => self.wire_token() == Some(token@),
                Err(e) => self.wire_token() is None && e == BinanceError::IntervalNotSupported,
            },
    {
        match self {
            Interval::Minutes(1) => Ok("1m"),
            Interval::Minutes(3) => Ok("3m"),
            Interval::Minutes(5) => Ok("5m"),
            Interval::Minutes(15) => Ok("15m"),
            Interval::Minutes(30) => Ok("30m"),
            Interval::Hours(1) => Ok("1h"),
            Interval::Hours(2) => Ok("2h"),
            Interval::Hours(4) => Ok("4h"),
            Interval::Hours(6) => Ok("6h"),
            Interval::Hours(8) => Ok("8h"),
            Interval::Hours(12) => Ok("12h"),
            Interval::Days(1) => Ok("1d"),
            Interval::Days(3) => Ok("3d"),
            Interval::Weeks(1) => Ok("1w"),
            Interval::Months(1) => Ok("1M"),
            _ => Err(BinanceError::IntervalNotSupported),
        }
    }
}

} // verus!
