//! The exchange's listing of tradable symbols and the index built from it.

use vstd::prelude::*;
use vstd::hash_map::StringHashMap;
use crate::error::BinanceError;

verus! {

/// One tradable pair as the exchange lists it.
#[derive(Debug, PartialEq, Eq)]
pub struct Symbol {
    pub symbol: String,
    pub status: String,
    pub base_asset: String,
    pub base_asset_precision: u8,
    pub quote_asset: String,
    pub quote_precision: u8,
    pub order_types: Vec<String>,
    pub iceberg_allowed: bool,
    pub oco_allowed: bool,
    pub quote_order_qty_market_allowed: bool,
    pub is_spot_trading_allowed: bool,
    pub is_margin_trading_allowed: bool,
    pub permissions: Vec<String>,
}

impl Clone for Symbol {
    fn clone(&self) -> (r: Self)
        ensures
            r.symbol == self.symbol,
            r.status == self.status,
            r.base_asset == self.base_asset,
            r.base_asset_precision == self.base_asset_precision,
            r.quote_asset == self.quote_asset,
            r.quote_precision == self.quote_precision,
            r.order_types@ == self.order_types@,
            r.iceberg_allowed == self.iceberg_allowed,
            r.oco_allowed == self.oco_allowed,
            r.quote_order_qty_market_allowed == self.quote_order_qty_market_allowed,
            r.is_spot_trading_allowed == self.is_spot_trading_allowed,
            r.is_margin_trading_allowed == self.is_margin_trading_allowed,
            r.permissions@ == self.permissions@,
    {
        let order_types = self.order_types.clone();
        let permissions = self.permissions.clone();
        assert(order_types@ =~= self.order_types@);
        assert(permissions@ =~= self.permissions@);
        Symbol {
            symbol: self.symbol.clone(),
            status: self.status.clone(),
            base_asset: self.base_asset.clone(),
            base_asset_precision: self.base_asset_precision,
            quote_asset: self.quote_asset.clone(),
            quote_precision: self.quote_precision,
            order_types,
            iceberg_allowed: self.iceberg_allowed,
            oco_allowed: self.oco_allowed,
            quote_order_qty_market_allowed: self.quote_order_qty_market_allowed,
            is_spot_trading_allowed: self.is_spot_trading_allowed,
            is_margin_trading_allowed: self.is_margin_trading_allowed,
            permissions,
        }
    }
}

/// The exchange's listing as it arrives: the symbols in the order sent.
#[derive(Debug, PartialEq, Eq)]
pub struct ExchangeData {
    pub timezone: String,
    pub server_time: u64,
    pub symbols: Vec<Symbol>,
}

/// The index that a listing amounts to: each entry under its own identifier,
/// a later entry taking the place of an earlier one of the same identifier.
pub open spec fn listing_index(listing: Seq<Symbol>) -> Map<Seq<char>, Symbol>
    decreases listing.len(),
{
    if listing.len() == 0 {
        Map::empty()
    } else {
        listing_index(listing.drop_last()).insert(listing.last().symbol@, listing.last())
    }
}

/// Whether no entry after position `i` has the identifier of the entry at `i`.
pub open spec fn is_last_of_its_id(listing: Seq<Symbol>, i: int) -> bool {
    forall|j: int| i < j < listing.len() ==> listing[j].symbol@ != listing[i].symbol@
}

/// The identifiers in the index are those of the listing's entries.
pub proof fn listing_index_keys(listing: Seq<Symbol>, id: Seq<char>)
    ensures
        listing_index(listing).contains_key(id) <==> exists|i: int|
            0 <= i < listing.len() && (#[trigger] listing[i]).symbol@ == id,
    decreases listing.len(),
{
    if listing.len() > 0 {
        let front = listing.drop_last();
        listing_index_keys(front, id);
        if listing_index(listing).contains_key(id) {
            if listing.last().symbol@ == id {
                assert(listing[listing.len() - 1].symbol@ == id);
            } else {
                let i = choose|i: int| 0 <= i < front.len() && (#[trigger] front[i]).symbol@ == id;
                assert(listing[i].symbol@ == id);
            }
        }
        if exists|i: int| 0 <= i < listing.len() && (#[trigger] listing[i]).symbol@ == id {
            let i = choose|i: int| 0 <= i < listing.len() && (#[trigger] listing[i]).symbol@ == id;
            if i < front.len() {
                assert(front[i].symbol@ == id);
            }
        }
    }
}

/// Every entry of the index stands under its own identifier.
pub proof fn listing_index_keyed_by_symbol(listing: Seq<Symbol>, id: Seq<char>)
    requires
        listing_index(listing).contains_key(id),
    ensures
        listing_index(listing)[id].symbol@ == id,
    decreases listing.len(),
{
    if listing.len() > 0 && listing.last().symbol@ != id {
        listing_index_keyed_by_symbol(listing.drop_last(), id);
    }
}

/// The index holds, under an identifier, the last entry of the listing that
/// bears it.
pub proof fn listing_index_last_wins(listing: Seq<Symbol>, i: int)
    requires
        0 <= i < listing.len(),
        is_last_of_its_id(listing, i),
    ensures
        listing_index(listing).contains_key(listing[i].symbol@),
        listing_index(listing)[listing[i].symbol@] == listing[i],
    decreases listing.len(),
{
    if i < listing.len() - 1 {
        let front = listing.drop_last();
        assert(front[i] == listing[i]);
        assert forall|j: int| i < j < front.len() implies front[j].symbol@ != front[i].symbol@ by {
            assert(front[j] == listing[j]);
        }
        listing_index_last_wins(front, i);
    }
}

/// Whether no two entries of the listing share an identifier.
pub open spec fn has_unique_ids(listing: Seq<Symbol>) -> bool {
    forall|i: int, j: int|
        0 <= i < j < listing.len() ==> (#[trigger] listing[i]).symbol@ != (#[trigger] listing[j]).symbol@
}

/// A listing without repeated identifiers is indexed whole: every entry is
/// found under its identifier.
pub proof fn unique_listing_is_indexed_whole(listing: Seq<Symbol>, i: int)
    requires
        has_unique_ids(listing),
        0 <= i < listing.len(),
    ensures
        listing_index(listing).contains_key(listing[i].symbol@),
        listing_index(listing)[listing[i].symbol@] == listing[i],
{
    listing_index_last_wins(listing, i);
}

/// The index is finite and has at most as many entries as the listing; it
/// has exactly as many where no identifier is repeated.
pub proof fn listing_index_size(listing: Seq<Symbol>)
    ensures
        listing_index(listing).dom().finite(),
        listing_index(listing).len() <= listing.len(),
        has_unique_ids(listing) ==> listing_index(listing).len() == listing.len(),
    decreases listing.len(),
{
    if listing.len() > 0 {
        let front = listing.drop_last();
        let id = listing.last().symbol@;
        listing_index_size(front);
        assert(listing_index(listing).dom() =~= listing_index(front).dom().insert(id));
        if has_unique_ids(listing) {
            assert forall|i: int, j: int| 0 <= i < j < front.len() implies (#[trigger] front[i]).symbol@
                != (#[trigger] front[j]).symbol@ by {
                assert(front[i] == listing[i]);
                assert(front[j] == listing[j]);
            }
            listing_index_keys(front, id);
            if listing_index(front).contains_key(id) {
                let i = choose|i: int| 0 <= i < front.len() && (#[trigger] front[i]).symbol@ == id;
                assert(listing[i].symbol@ == listing[listing.len() - 1].symbol@);
            }
        }
    }
}

/// The exchange's metadata, with the symbols indexed by identifier.
pub struct Exchange {
    timezone: String,
    server_time: u64,
    symbols: StringHashMap<Symbol>,
}

impl Exchange {
    #[verifier::type_invariant]
    spec fn keyed_by_symbol(self) -> bool {
        forall|id: Seq<char>| #[trigger]
            self.symbols@.contains_key(id) ==> self.symbols@[id].symbol@ == id
    }

    /// The symbols of the catalog, each under its identifier.
    pub closed spec fn index(&self) -> Map<Seq<char>, Symbol> {
        self.symbols@
    }

    /// The time zone that the exchange reports.
    pub closed spec fn timezone_id(&self) -> Seq<char> {
        self.timezone@
    }

    /// The exchange's clock when the listing was made, in milliseconds since
    /// the epoch.
    pub closed spec fn loaded_at(&self) -> u64 {
        self.server_time
    }

    /// Builds the catalog from a listing. Where two entries share an
    /// identifier, the later one stays.
    pub fn from_listing(data: ExchangeData) -> (catalog: Exchange)
        ensures
            catalog.index() == listing_index(data.symbols@),
            catalog.timezone_id() == data.timezone@,
            catalog.loaded_at() == data.server_time,
    {
        let ExchangeData { timezone, server_time, symbols: listing } = data;
        let mut symbols: StringHashMap<Symbol> = StringHashMap::new();
        let ghost entries = listing@;
        for symbol in it: listing
            invariant
                it.seq() == entries,
                symbols@ == listing_index(entries.take(it.index())),
        {
            proof {
                assert(entries.take(it.index() + 1).drop_last() == entries.take(it.index()));
            }
            let id = symbol.symbol.clone();
            symbols.insert(id, symbol);
        }
        proof {
            assert(entries.take(entries.len() as int) == entries);
            assert forall|id: Seq<char>| #[trigger] symbols@.contains_key(id) implies symbols@[id].symbol@ == id by {
                listing_index_keyed_by_symbol(entries, id);
            }
        }
        Exchange { timezone, server_time, symbols }
    }

    /// The time zone that the exchange reports.
    pub fn timezone(&self) -> (r: &str)
        ensures
            r@ == self.timezone_id(),
    {
        self.timezone.as_str()
    }

    /// The exchange's clock when the listing was made.
    pub fn server_time(&self) -> (r: u64)
        ensures
            r == self.loaded_at(),
    {
        self.server_time
    }

    /// How many symbols the catalog holds.
    pub fn len(&self) -> (r: usize)
        ensures
            r == self.index().len(),
    {
        self.symbols.len()
    }

    /// The entry of a symbol, found by its exact identifier, or
    /// `SymbolNotFound` with that identifier where the catalog has none.
    pub fn lookup(&self, id: &str) -> (r: Result<&Symbol, BinanceError>)
        ensures
            match r {
                Ok(info) => self.index().contains_key(id@) && *info == self.index()[id@]
                    && info.symbol@ == id@,
                Err(BinanceError::SymbolNotFound(missing)) => !self.index().contains_key(id@)
                    && missing@ == id@,
                Err(_) => false,
            },
    {
        proof {
            use_type_invariant(self);
        }
        match self.symbols.get(id) {
            Some(info) => Ok(info),
            None => Err(BinanceError::SymbolNotFound(id.to_owned())),
        }
    }
}

} // verus!
