//! The table of candles: columns of one length, seen as a sequence of rows.

use vstd::prelude::*;
use crate::error::{BinanceError, DecodeFailure};

verus! {

/// One row of the table.
#[derive(Debug, PartialEq)]
pub struct Candle<V> {
    pub open_time: i64,
    pub close_time: i64,
    pub open: V,
    pub high: V,
    pub low: V,
    pub close: V,
    pub volume: V,
}

/// Seven columns, taken by themselves: nothing says that they are of one
/// length.
#[derive(Debug, PartialEq)]
pub struct Columns<V> {
    pub open_time: Vec<i64>,
    pub close_time: Vec<i64>,
    pub open: Vec<V>,
    pub high: Vec<V>,
    pub low: Vec<V>,
    pub close: Vec<V>,
    pub volume: Vec<V>,
}

/// Candles in columns: seven vectors of one length, row `i` of each
/// describing the same candle. Its view is the sequence of its rows.
#[derive(Debug)]
pub struct CandleTable<V> {
    columns: Columns<V>,
}

impl<V> Columns<V> {
    /// Whether the seven columns are of one length.
    pub open spec fn agree(self) -> bool {
        &&& self.close_time@.len() == self.open_time@.len()
        &&& self.open@.len() == self.open_time@.len()
        &&& self.high@.len() == self.open_time@.len()
        &&& self.low@.len() == self.open_time@.len()
        &&& self.close@.len() == self.open_time@.len()
        &&& self.volume@.len() == self.open_time@.len()
    }

    /// The rows that columns of one length hold.
    pub open spec fn rows(self) -> Seq<Candle<V>>
        recommends
            self.agree(),
    {
        Seq::new(
            self.open_time@.len(),
            |i: int|
                Candle {
                    open_time: self.open_time@[i],
                    close_time: self.close_time@[i],
                    open: self.open@[i],
                    high: self.high@[i],
                    low: self.low@[i],
                    close: self.close@[i],
                    volume: self.volume@[i],
                },
        )
    }

    /// Tells whether the seven columns are of one length.
    pub fn check(&self) -> (r: bool)
        ensures
            r == self.agree(),
    {
        let n = self.open_time.len();
        self.close_time.len() == n && self.open.len() == n && self.high.len() == n
            && self.low.len() == n && self.close.len() == n && self.volume.len() == n
    }
}

impl<V> View for CandleTable<V> {
    type V = Seq<Candle<V>>;

    closed spec fn view(&self) -> Seq<Candle<V>> {
        self.columns.rows()
    }
}

impl<V> CandleTable<V> {
    #[verifier::type_invariant]
    spec fn columns_agree(self) -> bool {
        self.columns.agree()
    }

    /// An empty table with room for `rows` candles.
    pub fn with_capacity(rows: usize) -> (table: Self)
        ensures
            table@ == Seq::<Candle<V>>::empty(),
    {
        let columns = Columns {
            open_time: Vec::with_capacity(rows),
            close_time: Vec::with_capacity(rows),
            open: Vec::with_capacity(rows),
            high: Vec::with_capacity(rows),
            low: Vec::with_capacity(rows),
            close: Vec::with_capacity(rows),
            volume: Vec::with_capacity(rows),
        };
        assert(columns.rows() =~= Seq::<Candle<V>>::empty());
        CandleTable { columns }
    }

    /// The table with one more row at its end.
    pub fn with_row(self, candle: Candle<V>) -> (table: Self)
        ensures
            table@ == self@.push(candle),
    {
        proof {
            use_type_invariant(&self);
        }
        let Columns {
            mut open_time,
            mut close_time,
            mut open,
            mut high,
            mut low,
            mut close,
            mut volume,
        } = self.columns;
        open_time.push(candle.open_time);
        close_time.push(candle.close_time);
        open.push(candle.open);
        high.push(candle.high);
        low.push(candle.low);
        close.push(candle.close);
        volume.push(candle.volume);
        let columns = Columns { open_time, close_time, open, high, low, close, volume };
        assert(columns.rows() =~= self@.push(candle));
        CandleTable { columns }
    }

    /// Makes a table of seven columns, or reports `UnequalColumns` where
    /// they are not of one length.
    pub fn from_columns(columns: Columns<V>) -> (r: Result<Self, BinanceError>)
        ensures
            match r {
                Ok(table) => columns.agree() && table@ == columns.rows(),
                Err(e) => !columns.agree() && e == BinanceError::DecodeError(
                    DecodeFailure::UnequalColumns,
                ),
            },
    {
        if columns.check() {
            Ok(CandleTable { columns })
        } else {
            Err(BinanceError::DecodeError(DecodeFailure::UnequalColumns))
        }
    }

    /// Gives up the table for its columns.
    pub fn into_columns(self) -> (columns: Columns<V>)
        ensures
            columns.agree(),
            columns.rows() == self@,
    {
        proof {
            use_type_invariant(&self);
        }
        self.columns
    }

    /// The number of rows.
    pub fn len(&self) -> (n: usize)
        ensures
            n == self@.len(),
    {
        self.columns.open_time.len()
    }

    /// The column of opening times, in milliseconds since the epoch.
    pub fn open_time(&self) -> (column: &Vec<i64>)
        ensures
            column@ == self@.map_values(|c: Candle<V>| c.open_time),
    {
        assert(self.columns.open_time@ =~= self@.map_values(|c: Candle<V>| c.open_time));
        &self.columns.open_time
    }

    /// The column of closing times, in milliseconds since the epoch.
    pub fn close_time(&self) -> (column: &Vec<i64>)
        ensures
            column@ == self@.map_values(|c: Candle<V>| c.close_time),
    {
        proof {
            use_type_invariant(self);
        }
        assert(self.columns.close_time@ =~= self@.map_values(|c: Candle<V>| c.close_time));
        &self.columns.close_time
    }

    /// The column of opening prices.
    pub fn open(&self) -> (column: &Vec<V>)
        ensures
            column@ == self@.map_values(|c: Candle<V>| c.open),
    {
        proof {
            use_type_invariant(self);
        }
        assert(self.columns.open@ =~= self@.map_values(|c: Candle<V>| c.open));
        &self.columns.open
    }

    /// The column of highest prices.
    pub fn high(&self) -> (column: &Vec<V>)
        ensures
            column@ == self@.map_values(|c: Candle<V>| c.high),
    {
        proof {
            use_type_invariant(self);
        }
        assert(self.columns.high@ =~= self@.map_values(|c: Candle<V>| c.high));
        &self.columns.high
    }

    /// The column of lowest prices.
    pub fn low(&self) -> (column: &Vec<V>)
        ensures
            column@ == self@.map_values(|c: Candle<V>| c.low),
    {
        proof {
            use_type_invariant(self);
        }
        assert(self.columns.low@ =~= self@.map_values(|c: Candle<V>| c.low));
        &self.columns.low
    }

    /// The column of closing prices.
    pub fn close(&self) -> (column: &Vec<V>)
        ensures
            column@ == self@.map_values(|c: Candle<V>| c.close),
    {
        proof {
            use_type_invariant(self);
        }
        assert(self.columns.close@ =~= self@.map_values(|c: Candle<V>| c.close));
        &self.columns.close
    }

    /// The column of traded volumes.
    pub fn volume(&self) -> (column: &Vec<V>)
        ensures
            column@ == self@.map_values(|c: Candle<V>| c.volume),
    {
        proof {
            use_type_invariant(self);
        }
        assert(self.columns.volume@ =~= self@.map_values(|c: Candle<V>| c.volume));
        &self.columns.volume
    }
}

} // verus!
