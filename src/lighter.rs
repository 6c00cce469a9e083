use vstd::prelude::*;

use crate::exchange::ExchangeId;
use crate::listing::{is_deduplicated, lemma_dedup_unique, symbols_of, MarketListing};
use crate::market_index::{has_market, resolved_symbol, unknown_symbol, MarketIdIndex};
use crate::reading::{AssetReading, OpenInterestText};

verus! {

/// One market's entry in a Lighter statistics batch, with the fields that
/// the feed reads.
#[derive(Debug)]
pub struct MarketStat {
    pub market_id: u64,
    pub mark_price: String,
    pub open_interest: String,
    pub open_interest_limit: String,
    pub current_funding_rate: String,
}

/// `r` is the reading of `stat` under an index with entries `entries`.
pub open spec fn lighter_reading(entries: Seq<MarketListing>, stat: MarketStat, r: AssetReading) -> bool {
    &&& r.symbol@ == resolved_symbol(entries, stat.market_id)
    &&& r.funding_rate == stat.current_funding_rate
    &&& r.open_interest == OpenInterestText::LimitOverPrice(stat.open_interest_limit)
    &&& r.price == stat.mark_price
    &&& r.exchange == ExchangeId::Lighter
}

/// `rs` holds, in order, one reading for each entry of `stats`.
pub open spec fn lighter_readings(entries: Seq<MarketListing>, stats: Seq<MarketStat>, rs: Seq<AssetReading>) -> bool {
    &&& rs.len() == stats.len()
    &&& forall|i: int| 0 <= i < stats.len() ==> lighter_reading(entries, #[trigger] stats[i], rs[i])
}

/// Turns a statistics batch into readings, one per entry, tagged Lighter.
/// A market id that the index does not hold gets the symbol `UNKNOWN_<id>`;
/// the entry is kept.
pub fn handle_lighter_message(index: &MarketIdIndex, stats: &Vec<MarketStat>) -> (r: Vec<AssetReading>)
    ensures
        lighter_readings(index.spec_entries(), stats@, r@),
{
    let mut r: Vec<AssetReading> = Vec::new();
    let mut i: usize = 0;
    while i < stats.len()
        invariant
            0 <= i <= stats@.len(),
            r@.len() == i,
            forall|j: int| 0 <= j < i ==> lighter_reading(index.spec_entries(), #[trigger] stats@[j], r@[j]),
        decreases stats@.len() - i,
    {
        let stat = &stats[i];
        let reading = AssetReading {
            symbol: index.resolve(stat.market_id),
            funding_rate: stat.current_funding_rate.clone(),
            open_interest: OpenInterestText::LimitOverPrice(stat.open_interest_limit.clone()),
            price: stat.mark_price.clone(),
            exchange: ExchangeId::Lighter,
        };
        r.push(reading);
        i = i + 1;
    }
    r
}

/// The control message that subscribes to the statistics of all markets.
pub open spec fn subscribe_text() -> Seq<char> {
    "{\"type\":\"subscribe\",\"channel\":\"market_stats/all\"}"@
}

/// Builds the subscribe control message for the all-markets statistics channel.
pub fn subscribe_message() -> (r: String)
    ensures
        r@ == subscribe_text(),
{
    String::from_str("{\"type\":\"subscribe\",\"channel\":\"market_stats/all\"}")
}

/// Every symbol that the Lighter adapter emits is in the universe of the
/// Lighter selection (the symbols of the deduplicated listing), or is the
/// placeholder `UNKNOWN_<id>` of a market id that the listing lacks.
pub proof fn lemma_lighter_symbols_in_universe(
    listing: Seq<MarketListing>,
    universe: Seq<MarketListing>,
    entries: Seq<MarketListing>,
    stats: Seq<MarketStat>,
    rs: Seq<AssetReading>,
)
    requires
        is_deduplicated(listing, universe),
        is_deduplicated(listing, entries),
        lighter_readings(entries, stats, rs),
    ensures
        forall|i: int|
            0 <= i < rs.len() ==> symbols_of(universe).contains(#[trigger] rs[i].symbol@) || rs[i].symbol@
                == unknown_symbol(stats[i].market_id),
{
    lemma_dedup_unique(listing, universe, entries);
    assert forall|i: int| 0 <= i < rs.len() implies symbols_of(universe).contains(#[trigger] rs[i].symbol@)
        || rs[i].symbol@ == unknown_symbol(stats[i].market_id) by {
        assert(lighter_reading(entries, stats[i], rs[i]));
        let id = stats[i].market_id;
        if has_market(entries, id) {
            let c = choose|c: int| 0 <= c < entries.len() && (#[trigger] entries[c]).market_id as u64 == id;
            assert(symbols_of(universe)[c] == rs[i].symbol@);
        }
    }
}

} // verus!
