use vstd::prelude::*;

verus! {

/// Status code of a successful funding-rate listing response.
pub const LISTING_OK_CODE: u16 = 200;

/// One entry of the Lighter funding-rate listing: a numeric market id and the
/// canonical symbol of that market.
#[derive(Debug)]
pub struct MarketListing {
    pub market_id: u8,
    pub symbol: String,
}

/// Why a funding-rate listing was refused.
#[derive(Clone, Copy, Debug, PartialEq, Eq, Structural)]
pub enum ListingError {
    /// The response carried a status code other than 200.
    BadStatus(u16),
}

impl MarketListing {
    pub fn new(market_id: u8, symbol: String) -> (r: MarketListing)
        ensures
            r.market_id == market_id,
            r.symbol == symbol,
    {
        MarketListing { market_id, symbol }
    }

    pub fn duplicate(&self) -> (r: MarketListing)
        ensures
            r == *self,
    {
        MarketListing { market_id: self.market_id, symbol: self.symbol.clone() }
    }
}

/// Every id in `r` is smaller than every id after it.
pub open spec fn ids_strictly_increasing(r: Seq<MarketListing>) -> bool {
    forall|i: int, j: int| 0 <= i < j < r.len() ==> #[trigger] r[i].market_id < #[trigger] r[j].market_id
}

/// `e` is, within the first `n` entries of `s`, the first entry with its id.
#[verifier::opaque]
pub open spec fn first_with_id(s: Seq<MarketListing>, n: int, e: MarketListing) -> bool {
    exists|k: int|
        #![trigger s[k]]
        0 <= k < n && s[k] == e && forall|j: int| 0 <= j < k ==> (#[trigger] s[j]).market_id != e.market_id
}

/// `r` holds an entry with market id `id`.
pub open spec fn has_id(r: Seq<MarketListing>, id: u8) -> bool {
    exists|i: int| 0 <= i < r.len() && (#[trigger] r[i]).market_id == id
}

/// `r` lists each market id of the first `n` entries of `s`.
#[verifier::opaque]
pub open spec fn covers_ids(s: Seq<MarketListing>, n: int, r: Seq<MarketListing>) -> bool {
    forall|k: int| 0 <= k < n ==> has_id(r, (#[trigger] s[k]).market_id)
}

/// `r` is what sorting and deduplicating the first `n` entries of `s` gives.
pub open spec fn dedup_of_prefix(s: Seq<MarketListing>, n: int, r: Seq<MarketListing>) -> bool {
    &&& ids_strictly_increasing(r)
    &&& forall|i: int| 0 <= i < r.len() ==> first_with_id(s, n, #[trigger] r[i])
    &&& covers_ids(s, n, r)
}

/// `r` is the listing `s` sorted by market id (stably) with adjacent duplicate
/// ids removed, keeping the first: one entry per id, ids ascending, each the
/// first entry of `s` that has its id.
pub open spec fn is_deduplicated(s: Seq<MarketListing>, r: Seq<MarketListing>) -> bool {
    dedup_of_prefix(s, s.len() as int, r)
}

proof fn lemma_first_extend(s: Seq<MarketListing>, n: int, e: MarketListing)
    requires
        n < s.len(),
        first_with_id(s, n, e),
    ensures
        first_with_id(s, n + 1, e),
{
    reveal(first_with_id);
}

proof fn lemma_first_new(s: Seq<MarketListing>, n: int)
    requires
        0 <= n < s.len(),
        forall|j: int| 0 <= j < n ==> (#[trigger] s[j]).market_id != s[n].market_id,
    ensures
        first_with_id(s, n + 1, s[n]),
{
    reveal(first_with_id);
    assert(s[n] == s[n]);
}

proof fn lemma_covers_extend(s: Seq<MarketListing>, n: int, r: Seq<MarketListing>, x: int)
    requires
        0 <= n < s.len(),
        0 <= x < r.len(),
        r[x].market_id == s[n].market_id,
        covers_ids(s, n, r),
    ensures
        covers_ids(s, n + 1, r),
{
    reveal(covers_ids);
    assert forall|k: int| #![trigger s[k]] 0 <= k < n + 1 implies exists|i: int|
        0 <= i < r.len() && (#[trigger] r[i]).market_id == s[k].market_id by {
        if k == n {
            assert(r[x].market_id == s[k].market_id);
        }
    }
}

proof fn lemma_covers_insert(s: Seq<MarketListing>, n: int, r: Seq<MarketListing>, p: int, e: MarketListing)
    requires
        0 <= n <= s.len(),
        0 <= p <= r.len(),
        covers_ids(s, n, r),
    ensures
        covers_ids(s, n, r.insert(p, e)),
{
    reveal(covers_ids);
    r.insert_ensures(p, e);
    let q = r.insert(p, e);
    assert forall|k: int| #![trigger s[k]] 0 <= k < n implies exists|i: int|
        0 <= i < q.len() && (#[trigger] q[i]).market_id == s[k].market_id by {
        let x = choose|x: int| 0 <= x < r.len() && (#[trigger] r[x]).market_id == s[k].market_id;
        if x < p {
            assert(q[x] == r[x]);
        } else {
            assert(q[x + 1] == r[x]);
        }
    }
}

/// An id that `r` does not hold does not occur among the entries it covers.
proof fn lemma_covers_absent(s: Seq<MarketListing>, n: int, r: Seq<MarketListing>, id: u8)
    requires
        covers_ids(s, n, r),
        forall|x: int| 0 <= x < r.len() ==> (#[trigger] r[x]).market_id != id,
    ensures
        forall|j: int| 0 <= j < n ==> (#[trigger] s[j]).market_id != id,
{
    reveal(covers_ids);
    assert forall|j: int| 0 <= j < n implies (#[trigger] s[j]).market_id != id by {
        let x = choose|x: int| 0 <= x < r.len() && (#[trigger] r[x]).market_id == s[j].market_id;
        assert(r[x].market_id != id);
    }
}

/// The entry at `n` repeats an id already kept: the result stays as it is.
proof fn lemma_dedup_skip(s: Seq<MarketListing>, n: int, r: Seq<MarketListing>, p: int)
    requires
        0 <= n < s.len(),
        0 <= p < r.len(),
        r[p].market_id == s[n].market_id,
        dedup_of_prefix(s, n, r),
    ensures
        dedup_of_prefix(s, n + 1, r),
{
    lemma_covers_extend(s, n, r, p);
    assert forall|x: int| 0 <= x < r.len() implies first_with_id(s, n + 1, #[trigger] r[x]) by {
        lemma_first_extend(s, n, r[x]);
    }
}

/// The entry at `n` has a new id, smaller than those from `p` on: inserting
/// it at `p` keeps the result in shape.
proof fn lemma_dedup_insert(s: Seq<MarketListing>, n: int, r: Seq<MarketListing>, p: int)
    requires
        0 <= n < s.len(),
        0 <= p <= r.len(),
        forall|x: int| 0 <= x < p ==> (#[trigger] r[x]).market_id < s[n].market_id,
        p < r.len() ==> s[n].market_id < r[p].market_id,
        dedup_of_prefix(s, n, r),
    ensures
        dedup_of_prefix(s, n + 1, r.insert(p, s[n])),
{
    let id = s[n].market_id;
    r.insert_ensures(p, s[n]);
    let q = r.insert(p, s[n]);
    assert forall|x: int| p <= x < r.len() implies id < (#[trigger] r[x]).market_id by {
        if x > p {
            assert(r[p].market_id < r[x].market_id);
        }
    }
    assert forall|x: int| 0 <= x < r.len() implies (#[trigger] r[x]).market_id != id by {
        if x < p {
            assert(r[x].market_id < id);
        } else {
            assert(id < r[x].market_id);
        }
    }
    lemma_covers_absent(s, n, r, id);
    lemma_first_new(s, n);
    assert forall|a: int, b: int| 0 <= a < b < q.len() implies #[trigger] q[a].market_id
        < #[trigger] q[b].market_id by {
        if a < p && b > p {
            assert(q[a] == r[a]);
            assert(q[b] == r[b - 1]);
        } else if a < p && b < p {
            assert(q[a] == r[a]);
            assert(q[b] == r[b]);
        } else if a == p {
            assert(q[b] == r[b - 1]);
        } else if b == p {
            assert(q[a] == r[a]);
        } else {
            assert(q[a] == r[a - 1]);
            assert(q[b] == r[b - 1]);
        }
    }
    assert forall|x: int| 0 <= x < q.len() implies first_with_id(s, n + 1, #[trigger] q[x]) by {
        if x < p {
            assert(q[x] == r[x]);
            lemma_first_extend(s, n, r[x]);
        } else if x > p {
            assert(q[x] == r[x - 1]);
            lemma_first_extend(s, n, r[x - 1]);
        }
    }
    lemma_covers_insert(s, n, r, p, s[n]);
    assert(q[p].market_id == s[n].market_id);
    lemma_covers_extend(s, n, q, p);
}

/// Sorts the listing by market id and drops duplicate ids, keeping for each id
/// the entry that comes first in `entries`.
pub fn dedup_market_ids(entries: &Vec<MarketListing>) -> (r: Vec<MarketListing>)
    ensures
        is_deduplicated(entries@, r@),
{
    let mut r: Vec<MarketListing> = Vec::new();
    let n = entries.len();
    let mut i: usize = 0;
    proof {
        reveal(covers_ids);
    }
    while i < n
        invariant
            n == entries@.len(),
            0 <= i <= n,
            dedup_of_prefix(entries@, i as int, r@),
        decreases n - i,
    {
        let id = entries[i].market_id;
        let mut p: usize = 0;
        while p < r.len() && r[p].market_id < id
            invariant
                0 <= p <= r@.len(),
                forall|x: int| 0 <= x < p ==> (#[trigger] r@[x]).market_id < id,
            decreases r@.len() - p,
        {
            p = p + 1;
        }
        if p < r.len() && r[p].market_id == id {
            proof {
                lemma_dedup_skip(entries@, i as int, r@, p as int);
            }
        } else {
            proof {
                lemma_dedup_insert(entries@, i as int, r@, p as int);
            }
            let e = entries[i].duplicate();
            r.insert(p, e);
        }
        i = i + 1;
    }
    r
}

/// Checks a funding-rate listing response and prepares its entries: a status
/// other than 200 is refused; otherwise the entries are sorted by market id
/// and deduplicated.
pub fn listing_from_response(code: u16, entries: &Vec<MarketListing>) -> (r: Result<Vec<MarketListing>, ListingError>)
    ensures
        code != LISTING_OK_CODE <==> r == Err::<Vec<MarketListing>, ListingError>(ListingError::BadStatus(code)),
        code == LISTING_OK_CODE <==> (r is Ok && is_deduplicated(entries@, r->Ok_0@)),
{
    if code != LISTING_OK_CODE {
        Err(ListingError::BadStatus(code))
    } else {
        Ok(dedup_market_ids(entries))
    }
}

/// The symbols of a listing, in its order.
pub open spec fn symbols_of(listing: Seq<MarketListing>) -> Seq<Seq<char>> {
    listing.map_values(|e: MarketListing| e.symbol@)
}

/// The asset universe that a Lighter listing gives: its symbols, in order.
pub fn listing_symbols(listing: &Vec<MarketListing>) -> (r: Vec<String>)
    ensures
        r@.map_values(|s: String| s@) == symbols_of(listing@),
{
    let mut r: Vec<String> = Vec::new();
    let mut i: usize = 0;
    while i < listing.len()
        invariant
            0 <= i <= listing@.len(),
            r@.map_values(|s: String| s@) == symbols_of(listing@.subrange(0, i as int)),
        decreases listing@.len() - i,
    {
        let ghost before = r@;
        r.push(listing[i].symbol.clone());
        proof {
            assert(listing@.subrange(0, i + 1) == listing@.subrange(0, i as int).push(listing@[i as int]));
            assert(r@ == before.push(listing@[i as int].symbol));
            assert(r@.map_values(|s: String| s@) =~= before.map_values(|s: String| s@).push(listing@[i as int].symbol@));
            assert(symbols_of(listing@.subrange(0, i + 1)) =~= symbols_of(listing@.subrange(0, i as int)).push(listing@[i as int].symbol@));
        }
        i = i + 1;
    }
    proof {
        assert(listing@.subrange(0, listing@.len() as int) == listing@);
    }
    r
}

proof fn lemma_first_witness(s: Seq<MarketListing>, n: int, e: MarketListing) -> (k: int)
    requires
        first_with_id(s, n, e),
    ensures
        0 <= k < n,
        s[k] == e,
{
    reveal(first_with_id);
    choose|k: int| #![trigger s[k]] 0 <= k < n && s[k] == e && forall|j: int|
        0 <= j < k ==> (#[trigger] s[j]).market_id != e.market_id
}

proof fn lemma_covers_witness(s: Seq<MarketListing>, n: int, r: Seq<MarketListing>, k: int) -> (i: int)
    requires
        covers_ids(s, n, r),
        0 <= k < n,
    ensures
        0 <= i < r.len(),
        r[i].market_id == s[k].market_id,
{
    reveal(covers_ids);
    assert(s[k] == s[k]);
    choose|i: int| 0 <= i < r.len() && (#[trigger] r[i]).market_id == s[k].market_id
}

/// Facts of a deduplication of an already deduplicated listing, one index
/// at a time: entries up to `i` are those of `r1`.
proof fn lemma_redup_prefix(r1: Seq<MarketListing>, r2: Seq<MarketListing>, i: int)
    requires
        ids_strictly_increasing(r1),
        is_deduplicated(r1, r2),
        0 <= i < r2.len(),
    ensures
        i < r1.len(),
        forall|j: int| 0 <= j <= i ==> r2[j] == r1[j],
    decreases i,
{
    if i > 0 {
        lemma_redup_prefix(r1, r2, i - 1);
    }
    assert(first_with_id(r1, r1.len() as int, r2[i]));
    let k = lemma_first_witness(r1, r1.len() as int, r2[i]);
    if i > 0 {
        assert(r2[i - 1] == r1[i - 1]);
        assert(r2[i - 1].market_id < r2[i].market_id);
        if k < i - 1 {
            assert(r1[k].market_id < r1[i - 1].market_id);
        }
    }
    assert(k >= i);
    if k > i {
        assert(r1[i].market_id < r1[k].market_id);
        let j = lemma_covers_witness(r1, r1.len() as int, r2, i);
        if j < i {
            assert(r2[j] == r1[j]);
            assert(r1[j].market_id < r1[i].market_id);
        } else if j > i {
            assert(r2[i].market_id < r2[j].market_id);
        }
    }
}

/// Deduplicating a listing twice gives the same listing as doing it once.
pub proof fn lemma_dedup_idempotent(s: Seq<MarketListing>, once: Seq<MarketListing>, twice: Seq<MarketListing>)
    requires
        is_deduplicated(s, once),
        is_deduplicated(once, twice),
    ensures
        twice == once,
{
    if twice.len() > 0 {
        lemma_redup_prefix(once, twice, twice.len() - 1);
    }
    if once.len() > twice.len() {
        let n = twice.len() as int;
        let j = lemma_covers_witness(once, once.len() as int, twice, n);
        assert(twice[j] == once[j]);
        assert(once[j].market_id < once[n].market_id);
    }
    assert(twice =~= once);
}

/// Two entries of `s` that are each the first with the same id are one entry.
proof fn lemma_first_unique(s: Seq<MarketListing>, a: MarketListing, b: MarketListing)
    requires
        first_with_id(s, s.len() as int, a),
        first_with_id(s, s.len() as int, b),
        a.market_id == b.market_id,
    ensures
        a == b,
{
    reveal(first_with_id);
    let ka = choose|k: int| #![trigger s[k]] 0 <= k < s.len() && s[k] == a && forall|j: int|
        0 <= j < k ==> (#[trigger] s[j]).market_id != a.market_id;
    let kb = choose|k: int| #![trigger s[k]] 0 <= k < s.len() && s[k] == b && forall|j: int|
        0 <= j < k ==> (#[trigger] s[j]).market_id != b.market_id;
    if ka < kb {
        assert(s[ka].market_id != b.market_id);
    } else if kb < ka {
        assert(s[kb].market_id != a.market_id);
    }
}

/// A listing has one deduplication only.
pub proof fn lemma_dedup_unique(s: Seq<MarketListing>, d1: Seq<MarketListing>, d2: Seq<MarketListing>)
    requires
        is_deduplicated(s, d1),
        is_deduplicated(s, d2),
    ensures
        d1 == d2,
{
    assert forall|i: int| 0 <= i < d2.len() implies first_with_id(d1, d1.len() as int, #[trigger] d2[i]) by {
        let k = lemma_first_witness(s, s.len() as int, d2[i]);
        let j = lemma_covers_witness(s, s.len() as int, d1, k);
        lemma_first_unique(s, d1[j], d2[i]);
        assert forall|x: int| 0 <= x < j implies (#[trigger] d1[x]).market_id != d2[i].market_id by {
            assert(d1[x].market_id < d1[j].market_id);
        }
        lemma_first_new(d1, j);
        lemma_first_grow(d1, j + 1, d1.len() as int, d1[j]);
    }
    lemma_covers_same_source(s, d1, d2);
    if d2.len() > 0 {
        lemma_redup_prefix(d1, d2, d2.len() - 1);
    }
    if d1.len() > d2.len() {
        let n = d2.len() as int;
        let j = lemma_covers_witness(d1, d1.len() as int, d2, n);
        assert(d2[j] == d1[j]);
        assert(d1[j].market_id < d1[n].market_id);
    }
    assert(d1 =~= d2);
}

/// Two deduplications of one listing hold the same ids.
proof fn lemma_covers_same_source(s: Seq<MarketListing>, d1: Seq<MarketListing>, d2: Seq<MarketListing>)
    requires
        is_deduplicated(s, d1),
        is_deduplicated(s, d2),
    ensures
        covers_ids(d1, d1.len() as int, d2),
{
    assert forall|k: int| 0 <= k < d1.len() implies has_id(d2, (#[trigger] d1[k]).market_id) by {
        let ks = lemma_first_witness(s, s.len() as int, d1[k]);
        let i = lemma_covers_witness(s, s.len() as int, d2, ks);
        assert(d2[i].market_id == d1[k].market_id);
    }
    lemma_covers_intro(d1, d1.len() as int, d2);
}

proof fn lemma_covers_intro(s: Seq<MarketListing>, n: int, r: Seq<MarketListing>)
    requires
        forall|k: int| 0 <= k < n ==> has_id(r, (#[trigger] s[k]).market_id),
    ensures
        covers_ids(s, n, r),
{
    reveal(covers_ids);
}

proof fn lemma_first_grow(s: Seq<MarketListing>, n: int, m: int, e: MarketListing)
    requires
        n <= m,
        first_with_id(s, n, e),
    ensures
        first_with_id(s, m, e),
{
    reveal(first_with_id);
}

} // verus!
