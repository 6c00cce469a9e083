use vstd::prelude::*;

use crate::exchange::ExchangeId;
use crate::reading::{AssetReading, OpenInterestText};

verus! {

/// The context that an "active asset context" message carries.
#[derive(Debug)]
pub enum AssetContext {
    /// A perpetual contract: funding rate, open interest and oracle price as
    /// numeric strings.
    Perps { funding: String, open_interest: String, oracle_px: String },
    /// A spot asset, which carries no funding data.
    Spot,
}

/// A message of the Hyperliquid subscription stream.
#[derive(Debug)]
pub enum HyperliquidMessage {
    ActiveAssetCtx { coin: String, ctx: AssetContext },
    /// Any other kind of message on the same stream.
    Other,
}

/// The reading that a Hyperliquid message gives, if any.
pub open spec fn hyperliquid_reading(msg: HyperliquidMessage, r: AssetReading) -> bool {
    match msg {
        HyperliquidMessage::ActiveAssetCtx { coin, ctx } => match ctx {
            AssetContext::Perps { funding, open_interest, oracle_px } => {
                &&& r.symbol == coin
                &&& r.funding_rate == funding
                &&& r.open_interest == OpenInterestText::Direct(open_interest)
                &&& r.price == oracle_px
                &&& r.exchange == ExchangeId::Hyperliquid
            },
            AssetContext::Spot => false,
        },
        HyperliquidMessage::Other => false,
    }
}

/// Whether a Hyperliquid message carries a perpetual-contract context.
pub open spec fn is_perps_context(msg: HyperliquidMessage) -> bool {
    match msg {
        HyperliquidMessage::ActiveAssetCtx { ctx, .. } => ctx is Perps,
        HyperliquidMessage::Other => false,
    }
}

/// The coins to subscribe to, one "active asset context" subscription each, in
/// the order of the universe.
pub fn subscription_coins(universe: &Vec<String>) -> (r: Vec<String>)
    ensures
        r@ == universe@,
{
    universe.clone()
}

/// Turns a message into a reading: a perpetual-contract context gives one
/// reading tagged Hyperliquid, with the coin as its symbol; any other message
/// gives none.
pub fn handle_hyperliquid_message(msg: HyperliquidMessage) -> (r: Option<AssetReading>)
    ensures
        r is Some <==> is_perps_context(msg),
        r is Some ==> hyperliquid_reading(msg, r->Some_0),
{
    match msg {
        HyperliquidMessage::ActiveAssetCtx { coin, ctx } => match ctx {
            AssetContext::Perps { funding, open_interest, oracle_px } => Some(
                AssetReading {
                    symbol: coin,
                    funding_rate: funding,
                    open_interest: OpenInterestText::Direct(open_interest),
                    price: oracle_px,
                    exchange: ExchangeId::Hyperliquid,
                },
            ),
            AssetContext::Spot => None,
        },
        HyperliquidMessage::Other => None,
    }
}

/// A reading of a Hyperliquid message about a coin of the universe (a valid
/// subscription response) has a symbol of the universe.
pub proof fn lemma_hyperliquid_symbols_in_universe(universe: Seq<Seq<char>>, msg: HyperliquidMessage, r: AssetReading)
    requires
        msg matches HyperliquidMessage::ActiveAssetCtx { coin, .. } && universe.contains(coin@),
        hyperliquid_reading(msg, r),
    ensures
        universe.contains(r.symbol@),
{
}

} // verus!
