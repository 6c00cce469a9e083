use funding_feed::{
    AssetReading, ExchangeId, LighterSession, MarketListing, MarketStat, OpenInterestText,
    Orchestrator, OrchestratorAction, SessionAction, SessionEvent, SessionPhase, Selection,
    SwitchPhase, UniverseSource,
};

fn session() -> LighterSession {
    let listing = vec![
        MarketListing::new(1, "ETH".to_string()),
        MarketListing::new(0, "BTC".to_string()),
    ];
    LighterSession::new(&listing)
}

fn sleep_secs(a: &SessionAction) -> Option<u64> {
    match a {
        SessionAction::Sleep(d) => Some(*d),
        _ => None,
    }
}

fn stream(s: &mut LighterSession) {
    assert!(matches!(s.step(SessionEvent::Started), SessionAction::Connect));
    assert!(matches!(s.step(SessionEvent::Connected), SessionAction::SendText(_)));
    assert!(matches!(s.step(SessionEvent::SubscribeSent), SessionAction::Listen));
    assert_eq!(s.phase(), SessionPhase::Streaming);
}

#[test]
fn connect_failures_back_off_exponentially() {
    let mut s = session();
    assert!(matches!(s.step(SessionEvent::Started), SessionAction::Connect));
    let mut slept = Vec::new();
    for _ in 0..8 {
        slept.push(sleep_secs(&s.step(SessionEvent::ConnectFailed)).unwrap());
        assert_eq!(s.phase(), SessionPhase::Reconnecting);
        assert!(matches!(s.step(SessionEvent::SleepElapsed), SessionAction::Connect));
    }
    assert_eq!(slept, vec![1, 2, 4, 8, 16, 32, 60, 60]);
}

#[test]
fn success_resets_the_backoff() {
    let mut s = session();
    s.step(SessionEvent::Started);
    s.step(SessionEvent::ConnectFailed);
    s.step(SessionEvent::SleepElapsed);
    s.step(SessionEvent::ConnectFailed);
    s.step(SessionEvent::SleepElapsed);
    assert_eq!(s.reconnect_delay_secs(), 4);
    match s.step(SessionEvent::Connected) {
        SessionAction::SendText(t) => {
            assert_eq!(t, "{\"type\":\"subscribe\",\"channel\":\"market_stats/all\"}")
        }
        other => panic!("unexpected action {:?}", other),
    }
    assert_eq!(s.reconnect_delay_secs(), 1);
    s.step(SessionEvent::SubscribeSent);
    assert_eq!(sleep_secs(&s.step(SessionEvent::ReadTimeout)), Some(1));
}

#[test]
fn subscribe_failure_retries_the_whole_connect() {
    let mut s = session();
    s.step(SessionEvent::Started);
    s.step(SessionEvent::Connected);
    assert_eq!(sleep_secs(&s.step(SessionEvent::SubscribeFailed)), Some(1));
    assert!(matches!(s.step(SessionEvent::SleepElapsed), SessionAction::Connect));
    assert_eq!(s.phase(), SessionPhase::Connecting);
}

#[test]
fn ping_is_answered_by_one_pong_with_its_payload() {
    let mut s = session();
    stream(&mut s);
    match s.step(SessionEvent::Ping(vec![7, 8, 9])) {
        SessionAction::SendPong(p) => assert_eq!(p, vec![7, 8, 9]),
        other => panic!("unexpected action {:?}", other),
    }
    assert_eq!(s.phase(), SessionPhase::Streaming);
    assert!(matches!(s.step(SessionEvent::PingDue), SessionAction::SendPing));
    assert!(matches!(s.step(SessionEvent::Pong), SessionAction::Listen));
}

#[test]
fn stream_failures_force_reconnect() {
    let events = vec![
        SessionEvent::Close,
        SessionEvent::StreamEnded,
        SessionEvent::ReadTimeout,
        SessionEvent::ReadError,
        SessionEvent::PingFailed,
        SessionEvent::PongFailed,
    ];
    for e in events {
        let mut s = session();
        stream(&mut s);
        assert_eq!(sleep_secs(&s.step(e)), Some(1));
        assert_eq!(s.phase(), SessionPhase::Reconnecting);
    }
}

#[test]
fn malformed_frames_are_dropped() {
    let mut s = session();
    stream(&mut s);
    assert!(matches!(s.step(SessionEvent::Unparsed), SessionAction::Listen));
    assert!(matches!(s.step(SessionEvent::Binary), SessionAction::Listen));
    assert_eq!(s.phase(), SessionPhase::Streaming);
}

#[test]
fn stats_batch_is_emitted_with_resolved_symbols() {
    let mut s = session();
    stream(&mut s);
    let stats = vec![
        MarketStat {
            market_id: 1,
            mark_price: "50".to_string(),
            open_interest: "3".to_string(),
            open_interest_limit: "1000".to_string(),
            current_funding_rate: "".to_string(),
        },
        MarketStat {
            market_id: 77,
            mark_price: "2".to_string(),
            open_interest: "1".to_string(),
            open_interest_limit: "4".to_string(),
            current_funding_rate: "0.01".to_string(),
        },
    ];
    match s.step(SessionEvent::Stats(stats)) {
        SessionAction::Emit(rs) => {
            let symbols: Vec<&str> = rs.iter().map(|r: &AssetReading| r.symbol.as_str()).collect();
            assert_eq!(symbols, vec!["ETH", "UNKNOWN_77"]);
            assert!(rs.iter().all(|r| r.exchange == ExchangeId::Lighter));
            assert!(matches!(&rs[0].open_interest, OpenInterestText::LimitOverPrice(t) if t == "1000"));
            assert_eq!(rs[0].funding_rate, "");
        }
        other => panic!("unexpected action {:?}", other),
    }
}

#[test]
fn cancelled_session_emits_nothing_more() {
    let mut s = session();
    stream(&mut s);
    assert!(matches!(s.step(SessionEvent::Cancelled), SessionAction::Stop));
    assert_eq!(s.phase(), SessionPhase::Stopped);
    let stats = vec![MarketStat {
        market_id: 0,
        mark_price: "1".to_string(),
        open_interest: "1".to_string(),
        open_interest_limit: "1".to_string(),
        current_funding_rate: "1".to_string(),
    }];
    assert!(matches!(s.step(SessionEvent::Stats(stats)), SessionAction::Stop));
    assert!(matches!(s.step(SessionEvent::Ping(vec![])), SessionAction::Stop));
    assert!(matches!(s.step(SessionEvent::Started), SessionAction::Stop));
}

fn names(v: &[&str]) -> Vec<String> {
    v.iter().map(|s| s.to_string()).collect()
}

fn switch(o: &mut Orchestrator, code: u8, universe: Vec<String>) -> u64 {
    assert!(matches!(o.select(code), OrchestratorAction::FetchUniverse { .. }));
    assert!(matches!(o.universe_fetched(Some(universe)), OrchestratorAction::StopAdapters));
    match o.adapters_drained() {
        OrchestratorAction::StartAdapters { selection, generation, .. } => {
            assert_eq!(selection, Selection::from_code(code));
            generation
        }
        other => panic!("unexpected action {:?}", other),
    }
}

#[test]
fn rapid_switch_never_leaks_across_exchanges() {
    let mut o = Orchestrator::new(Selection::Hyperliquid, names(&["BTC", "ETH"]));
    assert!(matches!(o.startup(), OrchestratorAction::StartAdapters { generation: 0, .. }));
    let hl_gen = 0;
    assert!(o.accepts(hl_gen, ExchangeId::Hyperliquid));

    let lt_gen = switch(&mut o, 2, names(&["BTC"]));
    assert_eq!(o.selection(), Selection::Lighter);
    // Exchange-2 window: a late Hyperliquid update is refused, Lighter passes.
    let window = vec![
        (hl_gen, ExchangeId::Hyperliquid),
        (lt_gen, ExchangeId::Lighter),
        (hl_gen, ExchangeId::Hyperliquid),
        (lt_gen, ExchangeId::Lighter),
    ];
    let fed: Vec<ExchangeId> = window
        .into_iter()
        .filter(|(g, e)| o.accepts(*g, *e))
        .map(|(_, e)| e)
        .collect();
    assert_eq!(fed, vec![ExchangeId::Lighter, ExchangeId::Lighter]);

    let hl_gen2 = switch(&mut o, 1, names(&["BTC", "ETH"]));
    assert!(hl_gen2 > lt_gen && lt_gen > hl_gen);
    assert!(!o.accepts(lt_gen, ExchangeId::Lighter));
    assert!(!o.accepts(hl_gen, ExchangeId::Hyperliquid));
    assert!(o.accepts(hl_gen2, ExchangeId::Hyperliquid));
}

#[test]
fn nothing_is_forwarded_while_draining() {
    let mut o = Orchestrator::new(Selection::Hyperliquid, names(&["BTC"]));
    o.select(2);
    assert!(o.accepts(0, ExchangeId::Hyperliquid));
    o.universe_fetched(Some(names(&["ETH"])));
    assert!(matches!(o.phase(), SwitchPhase::Draining(Selection::Lighter)));
    assert!(!o.accepts(0, ExchangeId::Hyperliquid));
}

#[test]
fn selecting_the_current_exchange_is_a_no_op() {
    let mut o = Orchestrator::new(Selection::Hyperliquid, names(&["BTC"]));
    assert!(matches!(o.select(1), OrchestratorAction::Nothing));
    assert!(matches!(o.select(0), OrchestratorAction::Nothing));
    assert_eq!(o.phase(), SwitchPhase::Running);
}

#[test]
fn failed_universe_fetch_keeps_the_working_feed() {
    let mut o = Orchestrator::new(Selection::Hyperliquid, names(&["BTC"]));
    match o.select(2) {
        OrchestratorAction::FetchUniverse { selection, source } => {
            assert_eq!(selection, Selection::Lighter);
            assert_eq!(source, UniverseSource::LighterListing);
        }
        other => panic!("unexpected action {:?}", other),
    }
    assert!(matches!(o.universe_fetched(None), OrchestratorAction::Nothing));
    assert_eq!(o.selection(), Selection::Hyperliquid);
    assert_eq!(o.phase(), SwitchPhase::Running);
    assert_eq!(o.universe(), &names(&["BTC"]));
    assert!(o.accepts(0, ExchangeId::Hyperliquid));
    assert!(matches!(o.adapters_drained(), OrchestratorAction::Nothing));
}

#[test]
fn both_selection_accepts_each_true_origin() {
    let mut o = Orchestrator::new(Selection::Hyperliquid, names(&["BTC"]));
    let g = switch(&mut o, 3, names(&["BTC"]));
    assert!(o.accepts(g, ExchangeId::Hyperliquid));
    assert!(o.accepts(g, ExchangeId::Lighter));
}
