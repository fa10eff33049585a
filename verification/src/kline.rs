//! Candles in the exchange's wire form, what parsing makes of them, and
//! their decoding into a table.
//!
//! The table is generic in the type of a price or volume. The decimal strings
//! are turned into such values by a parser that the caller supplies; the
//! decoder decides what becomes of the batch.

use vstd::prelude::*;
use crate::error::{BinanceError, DecodeFailure, KlineField};
use crate::table::{Candle, CandleTable, Columns};

verus! {

/// One candle as the exchange sends it, the fields in wire order. Prices and
/// volumes are decimal strings.
#[derive(Debug, PartialEq, Eq)]
pub struct Kline {
    pub open_time: i64,
    pub open: String,
    pub high: String,
    pub low: String,
    pub close: String,
    pub volume: String,
    pub close_time: i64,
    pub quote_asset_volume: String,
    pub number_of_trades: i32,
    pub taker_buy_base_volume: String,
    pub taker_buy_quote_volume: String,
    pub unused: String,
}

/// What parsing made of one candle: each of the five decimals is either its
/// value or, where the string could not be parsed, nothing.
#[derive(Debug, PartialEq)]
pub struct ParsedKline<V> {
    pub open_time: i64,
    pub close_time: i64,
    pub open: Option<V>,
    pub high: Option<V>,
    pub low: Option<V>,
    pub close: Option<V>,
    pub volume: Option<V>,
}

/// A batch of candles in the exchange's wire form, in the order received.
#[derive(Debug, PartialEq, Eq)]
pub struct Klines(pub Vec<Kline>);

impl Kline {
    /// Names the twelve fields of a candle that arrives as a bare tuple in
    /// wire order.
    pub fn from_wire(
        wire: (i64, String, String, String, String, String, i64, String, i32, String, String, String),
    ) -> (kline: Kline)
        ensures
            kline.open_time == wire.0,
            kline.open == wire.1,
            kline.high == wire.2,
            kline.low == wire.3,
            kline.close == wire.4,
            kline.volume == wire.5,
            kline.close_time == wire.6,
            kline.quote_asset_volume == wire.7,
            kline.number_of_trades == wire.8,
            kline.taker_buy_base_volume == wire.9,
            kline.taker_buy_quote_volume == wire.10,
            kline.unused == wire.11,
    {
        Kline {
            open_time: wire.0,
            open: wire.1,
            high: wire.2,
            low: wire.3,
            close: wire.4,
            volume: wire.5,
            close_time: wire.6,
            quote_asset_volume: wire.7,
            number_of_trades: wire.8,
            taker_buy_base_volume: wire.9,
            taker_buy_quote_volume: wire.10,
            unused: wire.11,
        }
    }

    /// Whether `parse` may be called on each of the five decimal strings.
    pub open spec fn parsable_by<V, F: Fn(&String) -> Option<V>>(self, parse: F) -> bool {
        &&& call_requires(parse, (&self.open,))
        &&& call_requires(parse, (&self.high,))
        &&& call_requires(parse, (&self.low,))
        &&& call_requires(parse, (&self.close,))
        &&& call_requires(parse, (&self.volume,))
    }

    /// Whether `row` is what `parse` made of this candle: the two times
    /// taken over, each decimal an answer of `parse` to its string.
    pub open spec fn parsed_as<V, F: Fn(&String) -> Option<V>>(
        self,
        parse: F,
        row: ParsedKline<V>,
    ) -> bool {
        &&& row.open_time == self.open_time
        &&& row.close_time == self.close_time
        &&& call_ensures(parse, (&self.open,), row.open)
        &&& call_ensures(parse, (&self.high,), row.high)
        &&& call_ensures(parse, (&self.low,), row.low)
        &&& call_ensures(parse, (&self.close,), row.close)
        &&& call_ensures(parse, (&self.volume,), row.volume)
    }

    /// Applies `parse` to the five decimal strings, in wire order.
    pub fn parse_with<V, F: Fn(&String) -> Option<V>>(&self, parse: &F) -> (row: ParsedKline<V>)
        requires
            self.parsable_by(*parse),
        ensures
            self.parsed_as(*parse, row),
    {
        let open = parse(&self.open);
        let high = parse(&self.high);
        let low = parse(&self.low);
        let close = parse(&self.close);
        let volume = parse(&self.volume);
        ParsedKline { open_time: self.open_time, close_time: self.close_time, open, high, low, close, volume }
    }
}

impl<V> ParsedKline<V> {
    /// The first decimal, in wire order, that has no value.
    pub open spec fn first_failure(self) -> Option<KlineField> {
        if self.open is None {
            Some(KlineField::Open)
        } else if self.high is None {
            Some(KlineField::High)
        } else if self.low is None {
            Some(KlineField::Low)
        } else if self.close is None {
            Some(KlineField::Close)
        } else if self.volume is None {
            Some(KlineField::Volume)
        } else {
            None
        }
    }

    /// Whether all five decimals have a value.
    pub open spec fn is_complete(self) -> bool {
        self.first_failure() is None
    }

    /// The row that a complete candle gives.
    pub open spec fn candle(self) -> Candle<V>
        recommends
            self.is_complete(),
    {
        Candle {
            open_time: self.open_time,
            close_time: self.close_time,
            open: self.open->0,
            high: self.high->0,
            low: self.low->0,
            close: self.close->0,
            volume: self.volume->0,
        }
    }

    /// Turns a complete candle into a row, or names the first decimal that
    /// has no value.
    pub fn into_candle(self) -> (r: Result<Candle<V>, KlineField>)
        ensures
            match r {
                Ok(candle) => self.is_complete() && candle == self.candle(),
                Err(field) => self.first_failure() == Some(field),
            },
    {
        let ParsedKline { open_time, close_time, open, high, low, close, volume } = self;
        let open = match open {
            Some(v) => v,
            None => return Err(KlineField::Open),
        };
        let high = match high {
            Some(v) => v,
            None => return Err(KlineField::High),
        };
        let low = match low {
            Some(v) => v,
            None => return Err(KlineField::Low),
        };
        let close = match close {
            Some(v) => v,
            None => return Err(KlineField::Close),
        };
        let volume = match volume {
            Some(v) => v,
            None => return Err(KlineField::Volume),
        };
        Ok(Candle { open_time, close_time, open, high, low, close, volume })
    }
}

impl<V> Candle<V> {
    /// The parsed candle, complete, that gives this row.
    pub open spec fn parsed(self) -> ParsedKline<V> {
        ParsedKline {
            open_time: self.open_time,
            close_time: self.close_time,
            open: Some(self.open),
            high: Some(self.high),
            low: Some(self.low),
            close: Some(self.close),
            volume: Some(self.volume),
        }
    }
}

/// Whether `table` holds the rows of `rows`, all of them complete, in order.
pub open spec fn decodes_to<V>(rows: Seq<ParsedKline<V>>, table: Seq<Candle<V>>) -> bool {
    &&& table.len() == rows.len()
    &&& forall|i: int|
        #![trigger rows[i]]
        #![trigger table[i]]
        0 <= i < rows.len() ==> rows[i].is_complete() && table[i] == rows[i].candle()
}

/// Whether candle `row` holds the first decimal without a value and `field`
/// is that decimal: all candles before it are complete, and `field` is the
/// first in wire order that this one lacks.
pub open spec fn fails_at<V>(rows: Seq<ParsedKline<V>>, row: usize, field: KlineField) -> bool {
    &&& row < rows.len()
    &&& rows[row as int].first_failure() == Some(field)
    &&& forall|j: int| 0 <= j < row ==> (#[trigger] rows[j]).is_complete()
}

/// Whether `parse` may be called on every decimal string of the batch.
pub open spec fn all_parsable_by<V, F: Fn(&String) -> Option<V>>(klines: Seq<Kline>, parse: F) -> bool {
    forall|i: int| 0 <= i < klines.len() ==> (#[trigger] klines[i]).parsable_by(parse)
}

/// Whether `parsed` is what `parse` made of the first candles of `klines`,
/// one for one.
pub open spec fn parsed_prefix<V, F: Fn(&String) -> Option<V>>(
    parse: F,
    klines: Seq<Kline>,
    parsed: Seq<ParsedKline<V>>,
) -> bool {
    &&& parsed.len() <= klines.len()
    &&& forall|j: int|
        #![trigger klines[j]]
        #![trigger parsed[j]]
        0 <= j < parsed.len() ==> klines[j].parsed_as(parse, parsed[j])
}

/// Whether `table` is what decoding `klines` with `parse` can give: one row
/// for each candle, in order, made of what `parse` answered for its strings.
pub open spec fn decoded_rows<V, F: Fn(&String) -> Option<V>>(
    parse: F,
    klines: Seq<Kline>,
    table: Seq<Candle<V>>,
) -> bool {
    &&& table.len() == klines.len()
    &&& parsed_prefix(parse, klines, table.map_values(|c: Candle<V>| c.parsed()))
}

/// Whether decoding `klines` with `parse` can end at the decimal `field` of
/// candle `row`: `parse` answered for the candles up to that one, all before
/// it came out complete, and `field` is the first decimal that it lacks.
pub open spec fn decoding_fails<V, F: Fn(&String) -> Option<V>>(
    parse: F,
    klines: Seq<Kline>,
    row: usize,
    field: KlineField,
) -> bool {
    exists|parsed: Seq<ParsedKline<V>>|
        parsed.len() == row + 1 && parsed_prefix(parse, klines, parsed) && #[trigger] fails_at(
            parsed,
            row,
            field,
        )
}

impl<V> CandleTable<V> {
    /// Builds the table from parsed candles, in their order. One decimal
    /// without a value anywhere fails the whole batch, and the failure names
    /// the first such decimal.
    pub fn from_parsed(rows: Vec<ParsedKline<V>>) -> (r: Result<Self, BinanceError>)
        ensures
            match r {
                Ok(table) => decodes_to(rows@, table@),
                Err(BinanceError::DecodeError(DecodeFailure::Unparsed { row, field })) => fails_at(
                    rows@,
                    row,
                    field,
                ),
                Err(_) => false,
            },
    {
        let ghost parsed = rows@;
        let mut table = CandleTable::with_capacity(rows.len());
        for row in it: rows
            invariant
                it.seq() == parsed,
                table@.len() == it.index(),
                forall|j: int|
                    0 <= j < it.index() ==> (#[trigger] parsed[j]).is_complete() && table@[j]
                        == parsed[j].candle(),
        {
            match row.into_candle() {
                Ok(candle) => {
                    table = table.with_row(candle);
                },
                Err(field) => {
                    return Err(
                        BinanceError::DecodeError(DecodeFailure::Unparsed { row: table.len(), field }),
                    );
                },
            }
        }
        Ok(table)
    }
}

impl From<Vec<Kline>> for Klines {
    fn from(klines: Vec<Kline>) -> (r: Self) {
        Klines(klines)
    }
}

impl vstd::std_specs::convert::FromSpecImpl<Vec<Kline>> for Klines {
    open spec fn obeys_from_spec() -> bool {
        true
    }

    open spec fn from_spec(klines: Vec<Kline>) -> Self {
        Klines(klines)
    }
}

impl View for Klines {
    type V = Seq<Kline>;

    open spec fn view(&self) -> Seq<Kline> {
        self.0@
    }
}

impl Klines {
    /// The number of candles in the batch.
    pub fn len(&self) -> (n: usize)
        ensures
            n == self@.len(),
    {
        self.0.len()
    }

    /// Decodes the batch into a table, turning each decimal string into a
    /// value with `parse`. The candles are taken in order and none is left
    /// out or moved. The first candle with a string that `parse` refuses
    /// ends the decoding, and no table is returned.
    pub fn decode<V, F: Fn(&String) -> Option<V>>(self, parse: F) -> (r: Result<
        CandleTable<V>,
        BinanceError,
    >)
        requires
            all_parsable_by(self@, parse),
        ensures
            match r {
                Ok(table) => decoded_rows(parse, self@, table@),
                Err(BinanceError::DecodeError(DecodeFailure::Unparsed { row, field })) =>
                    decoding_fails::<V, F>(parse, self@, row, field),
                Err(_) => false,
            },
    {
        let klines = self.0;
        let n = klines.len();
        let mut table: CandleTable<V> = CandleTable::with_capacity(n);
        let mut i: usize = 0;
        while i < n
            invariant
                i <= n,
                n == klines@.len(),
                klines@ == self@,
                all_parsable_by(klines@, parse),
                table@.len() == i,
                parsed_prefix(parse, klines@, table@.map_values(|c: Candle<V>| c.parsed())),
            decreases n - i,
        {
            let row = klines[i].parse_with(&parse);
            let ghost before = table@.map_values(|c: Candle<V>| c.parsed());
            let ghost parsed = before.push(row);
            match row.into_candle() {
                Ok(candle) => {
                    table = table.with_row(candle);
                    assert(table@.map_values(|c: Candle<V>| c.parsed()) =~= parsed);
                },
                Err(field) => {
                    assert(parsed_prefix(parse, klines@, parsed)) by {
                        assert forall|j: int| 0 <= j < parsed.len() implies (#[trigger] klines@[j]).parsed_as(
                            parse,
                            parsed[j],
                        ) by {
                            if j < i {
                                assert(parsed[j] == before[j]);
                            }
                        }
                    }
                    assert(fails_at(parsed, i, field));
                    return Err(BinanceError::DecodeError(DecodeFailure::Unparsed { row: i, field }));
                },
            }
            i += 1;
        }
        Ok(table)
    }
}

/// Decodes candles with `parse` and hands out the columns of the table, or
/// the failure that ended the decoding.
pub fn klines_to_columns<V, F: Fn(&String) -> Option<V>>(klines: Vec<Kline>, parse: F) -> (r: Result<
    Columns<V>,
    BinanceError,
>)
    requires
        all_parsable_by(klines@, parse),
    ensures
        match r {
            Ok(columns) => columns.agree() && decoded_rows(parse, klines@, columns.rows()),
            Err(BinanceError::DecodeError(DecodeFailure::Unparsed { row, field })) =>
                decoding_fails::<V, F>(parse, klines@, row, field),
            Err(_) => false,
        },
{
    match Klines(klines).decode(parse) {
        Ok(table) => Ok(table.into_columns()),
        Err(e) => Err(e),
    }
}

/// A batch has one outcome: two tables that it decodes to are the same, two
/// failures that it fails at are the same, and it never does both.
pub proof fn decoding_is_determined<V>(
    rows: Seq<ParsedKline<V>>,
    first: Result<Seq<Candle<V>>, (usize, KlineField)>,
    second: Result<Seq<Candle<V>>, (usize, KlineField)>,
)
    requires
        match first {
            Ok(table) => decodes_to(rows, table),
            Err(place) => fails_at(rows, place.0, place.1),
        },
        match second {
            Ok(table) => decodes_to(rows, table),
            Err(place) => fails_at(rows, place.0, place.1),
        },
    ensures
        first == second,
{
    match (first, second) {
        (Ok(a), Ok(b)) => {
            assert(a =~= b);
        },
        (Ok(_), Err(place)) => {
            assert(rows[place.0 as int].is_complete());
        },
        (Err(place), Ok(_)) => {
            assert(rows[place.0 as int].is_complete());
        },
        (Err(a), Err(b)) => {
            if a.0 < b.0 {
                assert(rows[a.0 as int].is_complete());
            }
            if b.0 < a.0 {
                assert(rows[b.0 as int].is_complete());
            }
        },
    }
}

/// Whether `parse` answers each string in one way only.
pub open spec fn is_function<V, F: Fn(&String) -> Option<V>>(parse: F) -> bool {
    forall|text: &String, a: Option<V>, b: Option<V>|
        #[trigger] call_ensures(parse, (text,), a) && #[trigger] call_ensures(parse, (text,), b)
            ==> a == b
}

/// With a parser that answers each string in one way only, a batch of
/// candles has one outcome: two tables that decoding can give are the same,
/// two failures are the same, and it cannot give both a table and a failure.
pub proof fn decoding_by_a_function_is_determined<V, F: Fn(&String) -> Option<V>>(
    parse: F,
    klines: Seq<Kline>,
    first: Result<Seq<Candle<V>>, (usize, KlineField)>,
    second: Result<Seq<Candle<V>>, (usize, KlineField)>,
)
    requires
        is_function(parse),
        match first {
            Ok(table) => decoded_rows(parse, klines, table),
            Err(place) => decoding_fails::<V, F>(parse, klines, place.0, place.1),
        },
        match second {
            Ok(table) => decoded_rows(parse, klines, table),
            Err(place) => decoding_fails::<V, F>(parse, klines, place.0, place.1),
        },
    ensures
        first == second,
{
    let one = parsed_witness(parse, klines, first);
    let two = parsed_witness(parse, klines, second);
    let shared = if one.len() <= two.len() {
        one.len()
    } else {
        two.len()
    };
    assert forall|j: int| 0 <= j < shared implies one[j] == two[j] by {
        assert(klines[j].parsed_as(parse, one[j]));
        assert(klines[j].parsed_as(parse, two[j]));
    }
    match (first, second) {
        (Ok(a), Ok(b)) => {
            assert(one =~= two);
            decoding_is_determined(one, Ok(a), Ok(b));
        },
        (Ok(a), Err(place)) => {
            assert(one[place.0 as int] == two[place.0 as int]);
        },
        (Err(place), Ok(b)) => {
            assert(one[place.0 as int] == two[place.0 as int]);
        },
        (Err(a), Err(b)) => {
            if a.0 < b.0 {
                assert(one[a.0 as int] == two[a.0 as int]);
            } else if b.0 < a.0 {
                assert(one[b.0 as int] == two[b.0 as int]);
            } else {
                assert(one =~= two);
            }
        },
    }
}

/// The parsed candles behind an outcome of decoding: those of all candles
/// for a table, those up to the failing one for a failure.
proof fn parsed_witness<V, F: Fn(&String) -> Option<V>>(
    parse: F,
    klines: Seq<Kline>,
    outcome: Result<Seq<Candle<V>>, (usize, KlineField)>,
) -> (parsed: Seq<ParsedKline<V>>)
    requires
        match outcome {
            Ok(table) => decoded_rows(parse, klines, table),
            Err(place) => decoding_fails::<V, F>(parse, klines, place.0, place.1),
        },
    ensures
        parsed_prefix(parse, klines, parsed),
        match outcome {
            Ok(table) => parsed.len() == klines.len() && decodes_to(parsed, table),
            Err(place) => parsed.len() == place.0 + 1 && fails_at(parsed, place.0, place.1),
        },
{
    match outcome {
        Ok(table) => {
            rows_decode_to_themselves(table);
            table.map_values(|c: Candle<V>| c.parsed())
        },
        Err(place) => {
            choose|parsed: Seq<ParsedKline<V>>|
                parsed.len() == place.0 + 1 && parsed_prefix(parse, klines, parsed)
                    && #[trigger] fails_at(parsed, place.0, place.1)
        },
    }
}

/// Every table is what its own rows decode to: nothing is lost, added or
/// moved on the way from parsed candles to columns.
pub proof fn rows_decode_to_themselves<V>(table: Seq<Candle<V>>)
    ensures
        decodes_to(table.map_values(|c: Candle<V>| c.parsed()), table),
{
    let rows = table.map_values(|c: Candle<V>| c.parsed());
    assert forall|i: int| 0 <= i < rows.len() implies (#[trigger] rows[i]).is_complete() && table[i]
        == rows[i].candle() by {
        assert(rows[i] == table[i].parsed());
    }
}

/// One incomplete candle fails the batch: no table is what it decodes to,
/// and it fails at that candle or at an earlier one.
pub proof fn incomplete_row_is_fatal<V>(rows: Seq<ParsedKline<V>>, i: int)
    requires
        0 <= i < rows.len(),
        !rows[i].is_complete(),
        rows.len() <= usize::MAX,
    ensures
        forall|table: Seq<Candle<V>>| !decodes_to(rows, table),
        exists|row: usize, field: KlineField| #[trigger] fails_at(rows, row, field) && row <= i,
    decreases i,
{
    assert forall|table: Seq<Candle<V>>| !decodes_to(rows, table) by {
        if decodes_to(rows, table) {
            assert(rows[i].is_complete());
        }
    }
    if exists|j: int| 0 <= j < i && !(#[trigger] rows[j]).is_complete() {
        let j = choose|j: int| 0 <= j < i && !(#[trigger] rows[j]).is_complete();
        incomplete_row_is_fatal(rows, j);
    } else {
        assert(fails_at(rows, i as usize, rows[i].first_failure()->0));
    }
}

} // verus!
