use funding_feed::{
    dedup_market_ids, handle_hyperliquid_message, handle_lighter_message, listing_from_response,
    listing_symbols, subscribe_message, subscription_coins, universe_source, App, AssetContext,
    Backoff, ExchangeId, HyperliquidMessage, ListingError, MarketIdIndex, MarketListing,
    MarketStat, OpenInterestText, Selection, UniverseSource,
};

fn listing(entries: &[(u8, &str)]) -> Vec<MarketListing> {
    entries
        .iter()
        .map(|(id, sym)| MarketListing::new(*id, sym.to_string()))
        .collect()
}

fn pairs(entries: &[MarketListing]) -> Vec<(u8, String)> {
    entries.iter().map(|e| (e.market_id, e.symbol.clone())).collect()
}

fn stat(id: u64, funding: &str, mark: &str, oi: &str, oi_limit: &str) -> MarketStat {
    MarketStat {
        market_id: id,
        mark_price: mark.to_string(),
        open_interest: oi.to_string(),
        open_interest_limit: oi_limit.to_string(),
        current_funding_rate: funding.to_string(),
    }
}

#[test]
fn selection_codes() {
    assert_eq!(Selection::from_code(1), Selection::Hyperliquid);
    assert_eq!(Selection::from_code(2), Selection::Lighter);
    assert_eq!(Selection::from_code(3), Selection::Both);
    assert_eq!(Selection::from_code(0), Selection::Hyperliquid);
    assert_eq!(Selection::from_code(9), Selection::Hyperliquid);
    assert_eq!(Selection::Both.code(), 3);
    assert_eq!(ExchangeId::Lighter.code(), 2);
    assert_eq!(ExchangeId::Hyperliquid.code(), 1);
}

#[test]
fn both_runs_each_adapter_with_its_own_tag() {
    assert_eq!(
        Selection::Both.adapters(),
        vec![ExchangeId::Hyperliquid, ExchangeId::Lighter]
    );
    assert_eq!(Selection::Lighter.adapters(), vec![ExchangeId::Lighter]);
    assert!(Selection::Both.includes_exchange(ExchangeId::Lighter));
    assert!(!Selection::Hyperliquid.includes_exchange(ExchangeId::Lighter));
}

#[test]
fn universe_lookup_per_selection() {
    assert_eq!(universe_source(Selection::Lighter), UniverseSource::LighterListing);
    assert_eq!(universe_source(Selection::Hyperliquid), UniverseSource::HyperliquidMeta);
    assert_eq!(universe_source(Selection::Both), UniverseSource::HyperliquidMeta);
}

#[test]
fn backoff_doubles_to_the_cap_and_resets() {
    let mut b = Backoff::new();
    let slept: Vec<u64> = (0..9).map(|_| b.on_failure()).collect();
    assert_eq!(slept, vec![1, 2, 4, 8, 16, 32, 60, 60, 60]);
    b.on_success();
    assert_eq!(b.delay_secs(), 1);
    assert_eq!(b.on_failure(), 1);
    assert_eq!(b.on_failure(), 2);
}

#[test]
fn dedup_sorts_and_keeps_first_of_each_id() {
    let l = listing(&[(5, "SOL"), (1, "ETH"), (5, "SOL2"), (0, "BTC"), (1, "ETH2")]);
    let d = dedup_market_ids(&l);
    assert_eq!(
        pairs(&d),
        vec![(0, "BTC".to_string()), (1, "ETH".to_string()), (5, "SOL".to_string())]
    );
}

#[test]
fn dedup_twice_equals_once() {
    let l = listing(&[(3, "A"), (3, "B"), (2, "C"), (7, "D"), (2, "E"), (0, "F")]);
    let once = dedup_market_ids(&l);
    let twice = dedup_market_ids(&once);
    assert_eq!(pairs(&once), pairs(&twice));
}

#[test]
fn dedup_of_empty_listing() {
    assert!(dedup_market_ids(&Vec::new()).is_empty());
}

#[test]
fn listing_status_other_than_200_is_refused() {
    let l = listing(&[(1, "ETH")]);
    assert!(matches!(
        listing_from_response(500, &l),
        Err(ListingError::BadStatus(500))
    ));
    let ok = listing_from_response(200, &listing(&[(2, "B"), (1, "A")])).unwrap();
    assert_eq!(pairs(&ok), vec![(1, "A".to_string()), (2, "B".to_string())]);
    assert_eq!(listing_symbols(&ok), vec!["A".to_string(), "B".to_string()]);
}

#[test]
fn index_resolves_known_and_unknown_ids() {
    let index = MarketIdIndex::from_listing(&listing(&[(1, "ETH"), (0, "BTC"), (1, "X")]));
    assert_eq!(index.len(), 2);
    assert_eq!(index.resolve(0), "BTC");
    assert_eq!(index.resolve(1), "ETH");
    assert_eq!(index.resolve(42), "UNKNOWN_42");
    assert_eq!(index.resolve(300), "UNKNOWN_300");
    assert_eq!(index.resolve(257), "UNKNOWN_257");
}

#[test]
fn lighter_batch_gives_one_reading_per_entry() {
    let index = MarketIdIndex::from_listing(&listing(&[(0, "BTC")]));
    let stats = vec![
        stat(0, "0.0001", "50", "7", "1000"),
        stat(9, "NaN", "", "1", "2"),
    ];
    let rs = handle_lighter_message(&index, &stats);
    assert_eq!(rs.len(), 2);
    assert_eq!(rs[0].symbol, "BTC");
    assert_eq!(rs[0].funding_rate, "0.0001");
    assert_eq!(rs[0].price, "50");
    assert!(matches!(&rs[0].open_interest, OpenInterestText::LimitOverPrice(t) if t == "1000"));
    assert_eq!(rs[0].exchange, ExchangeId::Lighter);
    assert_eq!(rs[1].symbol, "UNKNOWN_9");
    assert_eq!(rs[1].funding_rate, "NaN");
    assert_eq!(rs[1].price, "");
}

#[test]
fn lighter_subscribe_message_text() {
    assert_eq!(
        subscribe_message(),
        "{\"type\":\"subscribe\",\"channel\":\"market_stats/all\"}"
    );
}

#[test]
fn hyperliquid_perps_context_gives_a_reading() {
    let msg = HyperliquidMessage::ActiveAssetCtx {
        coin: "BTC".to_string(),
        ctx: AssetContext::Perps {
            funding: "0.0000125".to_string(),
            open_interest: "123.4".to_string(),
            oracle_px: "65000".to_string(),
        },
    };
    let r = handle_hyperliquid_message(msg).unwrap();
    assert_eq!(r.symbol, "BTC");
    assert_eq!(r.funding_rate, "0.0000125");
    assert_eq!(r.price, "65000");
    assert!(matches!(&r.open_interest, OpenInterestText::Direct(t) if t == "123.4"));
    assert_eq!(r.exchange, ExchangeId::Hyperliquid);
}

#[test]
fn hyperliquid_other_messages_are_ignored() {
    let spot = HyperliquidMessage::ActiveAssetCtx {
        coin: "PURR".to_string(),
        ctx: AssetContext::Spot,
    };
    assert!(handle_hyperliquid_message(spot).is_none());
    assert!(handle_hyperliquid_message(HyperliquidMessage::Other).is_none());
}

#[test]
fn hyperliquid_subscribes_each_coin_in_order() {
    let u = vec!["BTC".to_string(), "ETH".to_string()];
    assert_eq!(subscription_coins(&u), u);
}

#[test]
fn app_starts_on_hyperliquid() {
    let app = App::new();
    assert_eq!(app.get_exchange(), 1);
    assert_eq!(app.selection(), Selection::Hyperliquid);
    assert_eq!(App::default().get_exchange(), 1);
}
