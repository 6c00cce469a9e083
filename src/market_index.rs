use vstd::prelude::*;

use crate::decimal::{decimal_text, u64_to_decimal};
use crate::listing::{dedup_market_ids, ids_strictly_increasing, is_deduplicated, MarketListing};

verus! {

/// The text that stands before the id in the symbol of an unknown market.
pub open spec fn unknown_prefix() -> Seq<char> {
    seq!['U', 'N', 'K', 'N', 'O', 'W', 'N', '_']
}

/// The placeholder symbol of a market id that the index does not hold.
pub open spec fn unknown_symbol(id: u64) -> Seq<char> {
    unknown_prefix() + decimal_text(id as nat)
}

/// Whether `entries` holds an entry for market `id`.
pub open spec fn has_market(entries: Seq<MarketListing>, id: u64) -> bool {
    exists|i: int| 0 <= i < entries.len() && (#[trigger] entries[i]).market_id as u64 == id
}

/// The symbol that market `id` resolves to: that of its entry, or the
/// placeholder `UNKNOWN_<id>` where there is none.
pub open spec fn resolved_symbol(entries: Seq<MarketListing>, id: u64) -> Seq<char> {
    if has_market(entries, id) {
        entries[choose|i: int| 0 <= i < entries.len() && (#[trigger] entries[i]).market_id as u64 == id].symbol@
    } else {
        unknown_symbol(id)
    }
}

/// Map from Lighter's numeric market ids to canonical symbols, built once from
/// the funding-rate listing.
#[derive(Debug)]
pub struct MarketIdIndex {
    entries: Vec<MarketListing>,
}

impl MarketIdIndex {
    /// The entries of the index, ids ascending.
    pub closed spec fn spec_entries(self) -> Seq<MarketListing> {
        self.entries@
    }

    /// Market ids of the index are unique and ascending.
    #[verifier::type_invariant]
    spec fn inv(self) -> bool {
        ids_strictly_increasing(self.entries@)
    }


    /// Builds the index from a listing: sorted by market id, one entry per id,
    /// the first that the listing gives.
    pub fn from_listing(listing: &Vec<MarketListing>) -> (r: MarketIdIndex)
        ensures
            is_deduplicated(listing@, r.spec_entries()),
    {
        MarketIdIndex { entries: dedup_market_ids(listing) }
    }

    pub fn len(&self) -> (r: usize)
        ensures
            r == self.spec_entries().len(),
    {
        self.entries.len()
    }

    /// The canonical symbol of market `market_id`, or `UNKNOWN_<id>` where the
    /// index has no entry for it.
    pub fn resolve(&self, market_id: u64) -> (r: String)
        ensures
            r@ == resolved_symbol(self.spec_entries(), market_id),
    {
        proof {
            use_type_invariant(self);
        }
        let mut i: usize = 0;
        while i < self.entries.len()
            invariant
                ids_strictly_increasing(self.entries@),
                0 <= i <= self.entries@.len(),
                forall|j: int| 0 <= j < i ==> (#[trigger] self.entries@[j]).market_id as u64 != market_id,
            decreases self.entries@.len() - i,
        {
            if self.entries[i].market_id as u64 == market_id {
                proof {
                    let c = choose|c: int| 0 <= c < self.entries@.len() && (#[trigger] self.entries@[c]).market_id as u64 == market_id;
                    if c != i {
                        if c < i {
                            assert(self.entries@[c].market_id < self.entries@[i as int].market_id);
                        } else {
                            assert(self.entries@[i as int].market_id < self.entries@[c].market_id);
                        }
                    }
                }
                return self.entries[i].symbol.clone();
            }
            i = i + 1;
        }
        let mut r = String::from_str("UNKNOWN_");
        let digits = u64_to_decimal(market_id);
        r.append(digits.as_str());
        proof {
            reveal_strlit("UNKNOWN_");
            assert("UNKNOWN_"@ =~= unknown_prefix());
        }
        r
    }
}

} // verus!
