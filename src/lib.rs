//! Decision core of a multi-exchange funding-rate feed.
//!
//! The library holds the parts of the streaming core that decide: which
//! adapters an exchange selection runs, how a Lighter market listing becomes a
//! market-id index, how wire readings become canonical records, the
//! reconnect/keepalive session of the Lighter stream, and the orchestrator that
//! switches exchanges with a strict stop-before-start order. Transport, timers
//! and number conversion are left to the caller, which feeds events in and
//! performs the actions that come back.

pub mod app_state;
pub mod backoff;
pub mod decimal;
pub mod exchange;
pub mod hyperliquid;
pub mod lighter;
pub mod listing;
pub mod market_index;
pub mod orchestrator;
pub mod reading;
pub mod session;
pub mod table_nav;

pub use app_state::App;
pub use backoff::{Backoff, INITIAL_DELAY_SECS, MAX_DELAY_SECS};
pub use exchange::{ExchangeId, Selection};
pub use hyperliquid::{handle_hyperliquid_message, subscription_coins, AssetContext, HyperliquidMessage};
pub use lighter::{handle_lighter_message, subscribe_message, MarketStat};
pub use listing::{
    dedup_market_ids, listing_from_response, listing_symbols, ListingError, MarketListing, LISTING_OK_CODE,
};
pub use market_index::MarketIdIndex;
pub use orchestrator::{universe_source, Orchestrator, OrchestratorAction, SwitchPhase, UniverseSource};
pub use reading::{AssetReading, OpenInterestText};
pub use session::{
    LighterSession, SessionAction, SessionEvent, SessionPhase, PING_INTERVAL_SECS, READ_TIMEOUT_SECS,
};
pub use table_nav::{
    find_row, next_color, next_exchange_code, next_row, previous_color, previous_row, starts_with,
    FundingRateRound,
};
